//! A software model of a wavefront-oriented GPU instruction set: scalar and
//! vector ALU lanes, predicated execution and a local scratch memory.
//!
//! The engine decodes one instruction word (or word pair) at a time, resolves
//! its operands and commits the result. Everything that can be said about an
//! instruction in terms of integers is computed and proved here. Two kinds of
//! work are handed to the caller instead: floating-point arithmetic and
//! accesses to the linear address space. For those the engine stops with a
//! [`protocol::Request`]; the caller performs it and hands the outcome back
//! through [`cpu::CPU::resume`].
pub mod utils;
pub mod arith;
pub mod state;
pub mod protocol;
pub mod ieee;
pub mod decode;
pub mod cpu;
pub mod scalar;
pub mod vector;
pub mod vop3;
pub mod dual;
pub mod memory;
pub mod engine;
pub mod listing;

pub use arith::{cls_i32, clz_i32_u32};
pub use cpu::{ALUSrc, _helper_test_cpu, CPU};
pub use listing::parse_rdna3;
pub use protocol::{Fault, FloatCall, FloatOp, Reply, Request, Status};
pub use state::{Assign, Register, LANE_COUNT, SGPR_COUNT, VCC, VGPR, VGPR_COUNT};
pub use utils::{dispatch_dim, nth, sign_ext, END_PRG};
