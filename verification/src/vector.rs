//! The vector ALU: the families VOP1, VOP2 and VOPC, and the comparisons
//! that VOPC shares with VOP3.
use vstd::prelude::*;
use crate::arith::{
    add_carry, as_signed16, as_signed32, asr32, carry_out, borrow_out, cls_of, clz_of,
    cls_i32, clz_i32_u32, flag, flag_of, low16, mul_low, reverse_bits, reversed,
    shift_left, shift_right, shift_right_signed, shl32, shr32, signed16, signed32, signed64,
    sub_borrow, wrap32,
};
use crate::cpu::{asks_well, literal, operand, planned, Machine, Width, CPU};
use crate::ieee::{eq, in_classes, less, lt, matches_class, same, Format};
use crate::protocol::{Effects, Fault, FloatCall, FloatOp, Next, Pending, Request, Write};
use crate::state::Register;

verus! {

/// What a vector opcode yields for its destination: a value, or a call of
/// the floating-point unit whose result is the value.
#[derive(Clone, Copy, Debug, PartialEq, Eq, Structural)]
pub enum Outcome {
    Value(u32),
    Call(FloatCall),
}

/// A call of the floating-point unit.
pub open spec fn fcall(op: FloatOp, a: u64, b: u64, c: u64) -> FloatCall {
    FloatCall { op, a, b, c }
}

/// A call of the floating-point unit.
pub fn call(op: FloatOp, a: u64, b: u64, c: u64) -> (r: FloatCall)
    ensures
        r == fcall(op, a, b, c),
{
    FloatCall { op, a, b, c }
}

/// The effects that bring an outcome to a vector register of lane 0, after
/// an optional change to the vector condition code.
pub open spec fn to_vector(vdst: usize, o: Outcome, vcc: Option<bool>) -> Effects {
    let first = match vcc {
        Some(b) => Write::Vcc(flag_of(b)),
        None => Write::Skip,
    };
    match o {
        Outcome::Value(v) => Effects::of(first, Write::Vgpr(0, vdst, v), Write::Skip, Write::Skip),
        Outcome::Call(c) => Effects {
            w0: first,
            w1: Write::Skip,
            w2: Write::Skip,
            w3: Write::Skip,
            next: Next::Ask(Request::Float(c), Pending::Vector(vdst)),
        },
    }
}

/// The effects that bring an outcome to a vector register of lane 0.
pub fn vector_effects(vdst: usize, o: Outcome, vcc: Option<bool>) -> (r: Effects)
    ensures
        r == to_vector(vdst, o, vcc),
{
    let first = match vcc {
        Some(b) => Write::Vcc(flag(b)),
        None => Write::Skip,
    };
    match o {
        Outcome::Value(v) => Effects::two(first, Write::Vgpr(0, vdst, v)),
        Outcome::Call(c) => Effects {
            w0: first,
            w1: Write::Skip,
            w2: Write::Skip,
            w3: Write::Skip,
            next: Next::Ask(Request::Float(c), Pending::Vector(vdst)),
        },
    }
}

/// The outcome of a comparison opcode on two words. The opcode decides how
/// the words are read: as single or half precision numbers, or as signed or
/// unsigned integers of 16 or 32 bits. `None` for an opcode without
/// semantics.
pub open spec fn vopc_value(op: u32, a: u32, b: u32) -> Option<bool> {
    let ha = (a % 0x1_0000) as u16;
    let hb = (b % 0x1_0000) as u16;
    if op == 13 {
        Some(!same(Format::Half, ha as u64, hb as u64))
    } else if op == 17 {
        Some(less(Format::Single, a as u64, b as u64))
    } else if op == 18 {
        Some(same(Format::Single, a as u64, b as u64))
    } else if op == 20 {
        Some(less(Format::Single, b as u64, a as u64))
    } else if op == 22 {
        Some(less(Format::Single, b as u64, a as u64) || same(Format::Single, a as u64, b as u64))
    } else if op == 27 || op == 155 {
        Some(!less(Format::Single, b as u64, a as u64))
    } else if op == 29 {
        Some(!same(Format::Single, a as u64, b as u64))
    } else if op == 30 || op == 158 {
        Some(!less(Format::Single, a as u64, b as u64))
    } else if op == 126 {
        Some(in_classes(Format::Single, a as u64, b))
    } else if op == 52 {
        Some(signed16(ha) > signed16(hb))
    } else if op == 65 {
        Some(signed16(ha) < signed16(hb))
    } else if op == 57 {
        Some(ha < hb)
    } else if op == 58 {
        Some(ha == hb)
    } else if op == 60 {
        Some(ha > hb)
    } else if op == 61 {
        Some(ha != hb)
    } else if op == 62 {
        Some(ha >= hb)
    } else if op == 68 || op == 196 {
        Some(signed32(a) > signed32(b))
    } else if op == 70 {
        Some(signed32(a) >= signed32(b))
    } else if op == 193 {
        Some(signed32(a) < signed32(b))
    } else if op == 73 || op == 201 {
        Some(a < b)
    } else if op == 74 || op == 202 {
        Some(a == b)
    } else if op == 76 {
        Some(a > b)
    } else if op == 77 || op == 205 {
        Some(a != b)
    } else {
        None
    }
}

/// Whether a VOPC opcode compares 64-bit operands.
pub open spec fn vopc_is_wide(op: u32) -> bool {
    op == 45 || op == 84 || op == 89 || op == 90 || op == 93
}

/// The outcome of a 64-bit comparison opcode.
pub open spec fn vopc_wide_value(op: u32, a: u64, b: u64) -> bool {
    if op == 45 {
        !same(Format::Double, a, b)
    } else if op == 84 {
        signed64(a) > signed64(b)
    } else if op == 89 {
        a < b
    } else if op == 90 {
        a == b
    } else {
        a != b
    }
}

/// VOPC: compares a source with a vector register. The outcome goes to the
/// vector condition code, or to the execution mask for an opcode in the
/// upper half of the opcode space.
pub open spec fn vopc_effects(m: Machine, word: u32) -> Result<(Machine, Effects), Fault> {
    let c0 = (word % 0x200) as usize;
    let v1 = ((word / 0x200) % 0x100) as int;
    let op = (word / 0x2_0000) % 0x100;
    let width = if vopc_is_wide(op) {
        Width::Wide
    } else if op == 13 {
        Width::Half
    } else {
        Width::Word
    };
    match operand(m, c0, width) {
        Err(f) => Err(f),
        Ok((a, m1)) => {
            let outcome = if vopc_is_wide(op) {
                if v1 < 255 {
                    Ok(vopc_wide_value(op, a, crate::state::pair_of(m.vgpr[0], v1)))
                } else {
                    Err(Fault::InvalidOperandCode((256 + v1) as u32))
                }
            } else {
                match vopc_value(op, a as u32, m.vgpr[0][v1]) {
                    Some(c) => Ok(c),
                    None => Err(Fault::UnsupportedInstruction(word)),
                }
            };
            match outcome {
                Err(f) => Err(f),
                Ok(c) => Ok(
                    (
                        m1,
                        Effects::of(
                            if op >= 128 {
                                Write::Exec(flag_of(c))
                            } else {
                                Write::Vcc(flag_of(c))
                            },
                            Write::Skip,
                            Write::Skip,
                            Write::Skip,
                        ),
                    ),
                ),
            }
        },
    }
}

/// What a VOP2 opcode yields, and the vector condition code that it sets if
/// it sets one. `a` is the source, `b` the vector operand, `dst` what the
/// destination holds and `k` the literal of the two opcodes that have one.
/// `None` for an opcode without semantics.
pub open spec fn vop2_value(op: u32, a: u32, b: u32, vcc: u32, dst: u32, k: u32) -> Option<
    (Outcome, Option<bool>),
> {
    let (x, y, z, l) = (a as u64, b as u64, dst as u64, k as u64);
    if op == 1 {
        Some((Outcome::Value(if vcc != 0 { b } else { a }), None))
    } else if op == 2 {
        Some((Outcome::Call(fcall(FloatOp::DotHalf, x, y, z)), None))
    } else if op == 50 {
        Some((Outcome::Call(fcall(FloatOp::AddHalf, x % 0x1_0000, y % 0x1_0000, 0)), None))
    } else if op == 53 {
        Some((Outcome::Call(fcall(FloatOp::MulHalf, x % 0x1_0000, y % 0x1_0000, 0)), None))
    } else if op == 3 {
        Some((Outcome::Call(fcall(FloatOp::Add, x, y, 0)), None))
    } else if op == 4 {
        Some((Outcome::Call(fcall(FloatOp::Sub, x, y, 0)), None))
    } else if op == 8 {
        Some((Outcome::Call(fcall(FloatOp::Mul, x, y, 0)), None))
    } else if op == 16 {
        Some((Outcome::Call(fcall(FloatOp::Max, x, y, 0)), None))
    } else if op == 43 {
        Some((Outcome::Call(fcall(FloatOp::MulAdd, x, y, z)), None))
    } else if op == 44 {
        Some((Outcome::Call(fcall(FloatOp::MulAdd, x, l, y)), None))
    } else if op == 45 {
        Some((Outcome::Call(fcall(FloatOp::MulAdd, x, y, l)), None))
    } else if op == 9 || op == 11 {
        Some((Outcome::Value(wrap32(a * b)), None))
    } else if op == 18 {
        Some((Outcome::Value(if signed32(a) >= signed32(b) { a } else { b }), None))
    } else if op == 19 {
        Some((Outcome::Value(if a <= b { a } else { b }), None))
    } else if op == 24 {
        Some((Outcome::Value(shl32(b, a)), None))
    } else if op == 25 {
        Some((Outcome::Value(shr32(b, a)), None))
    } else if op == 26 {
        Some((Outcome::Value(asr32(b, a)), None))
    } else if op == 27 {
        Some((Outcome::Value(a & b), None))
    } else if op == 28 {
        Some((Outcome::Value(a | b), None))
    } else if op == 29 {
        Some((Outcome::Value(a ^ b), None))
    } else if op == 32 {
        Some((Outcome::Value(wrap32(a + b + vcc)), Some(carry_out(a, b, vcc))))
    } else if op == 33 {
        Some((Outcome::Value(wrap32(a - b - vcc)), Some(borrow_out(a, b, vcc))))
    } else if op == 34 {
        Some((Outcome::Value(wrap32(b - a - vcc)), Some(borrow_out(a, b, vcc))))
    } else if op == 37 {
        Some((Outcome::Value(wrap32(a + b)), None))
    } else if op == 38 {
        Some((Outcome::Value(wrap32(a - b)), None))
    } else if op == 39 {
        Some((Outcome::Value(wrap32(b - a)), None))
    } else {
        None
    }
}

/// VOP2: a source and a vector register, to a vector register.
pub open spec fn vop2_effects(m: Machine, word: u32) -> Result<(Machine, Effects), Fault> {
    let c0 = (word % 0x200) as usize;
    let v1 = ((word / 0x200) % 0x100) as int;
    let vdst = ((word / 0x2_0000) % 0x100) as usize;
    let op = (word / 0x200_0000) % 0x40;
    match operand(m, c0, Width::Word) {
        Err(f) => Err(f),
        Ok((a, m1)) => match (if op == 44 || op == 45 {
            literal(m1)
        } else {
            Ok((0u32, m1))
        }) {
            Err(f) => Err(f),
            Ok((k, m2)) => match vop2_value(
                op,
                a as u32,
                m.vgpr[0][v1],
                m.vcc,
                m.vgpr[0][vdst as int],
                k,
            ) {
                None => Err(Fault::UnsupportedInstruction(word)),
                Some((o, vcc)) => Ok((m2, to_vector(vdst, o, vcc))),
            },
        },
    }
}

/// The operand width of a VOP1 opcode.
pub open spec fn vop1_is_wide(op: u32) -> bool {
    op == 3 || op == 15 || op == 21 || op == 23 || op == 26
}

/// The conversion or function that a VOP1 opcode asks of the floating-point
/// unit with a 64-bit result, if it is one of those.
pub open spec fn vop1_pair_call(op: u32, a: u64) -> Option<FloatCall> {
    if op == 23 {
        Some(fcall(FloatOp::TruncDouble, a, 0, 0))
    } else if op == 26 {
        Some(fcall(FloatOp::FloorDouble, a, 0, 0))
    } else if op == 4 {
        Some(fcall(FloatOp::SignedToDouble, a, 0, 0))
    } else if op == 22 {
        Some(fcall(FloatOp::UnsignedToDouble, a, 0, 0))
    } else if op == 16 {
        Some(fcall(FloatOp::SingleToDouble, a, 0, 0))
    } else {
        None
    }
}

/// What a VOP1 opcode with a 32-bit result yields. `None` for an opcode
/// without semantics.
pub open spec fn vop1_value(op: u32, a: u64) -> Option<Outcome> {
    let w = (a % 0x1_0000_0000) as u32;
    if op == 3 {
        Some(Outcome::Call(fcall(FloatOp::DoubleToSigned, a, 0, 0)))
    } else if op == 15 {
        Some(Outcome::Call(fcall(FloatOp::DoubleToSingle, a, 0, 0)))
    } else if op == 21 {
        Some(Outcome::Call(fcall(FloatOp::DoubleToUnsigned, a, 0, 0)))
    } else if op == 1 {
        Some(Outcome::Value(w))
    } else if op == 5 {
        Some(Outcome::Call(fcall(FloatOp::SignedToSingle, a, 0, 0)))
    } else if op == 6 {
        Some(Outcome::Call(fcall(FloatOp::UnsignedToSingle, a, 0, 0)))
    } else if op == 7 {
        Some(Outcome::Call(fcall(FloatOp::SingleToUnsigned, a, 0, 0)))
    } else if op == 8 {
        Some(Outcome::Call(fcall(FloatOp::SingleToSigned, a, 0, 0)))
    } else if op == 10 {
        Some(Outcome::Call(fcall(FloatOp::SingleToHalf, a, 0, 0)))
    } else if op == 11 {
        Some(Outcome::Call(fcall(FloatOp::HalfToSingle, a % 0x1_0000, 0, 0)))
    } else if op == 17 {
        Some(Outcome::Call(fcall(FloatOp::UnsignedToSingle, a % 0x100, 0, 0)))
    } else if op == 18 {
        Some(Outcome::Call(fcall(FloatOp::UnsignedToSingle, (a / 0x100) % 0x100, 0, 0)))
    } else if op == 19 {
        Some(Outcome::Call(fcall(FloatOp::UnsignedToSingle, (a / 0x1_0000) % 0x100, 0, 0)))
    } else if op == 20 {
        Some(Outcome::Call(fcall(FloatOp::UnsignedToSingle, (a / 0x100_0000) % 0x100, 0, 0)))
    } else if op == 35 {
        Some(Outcome::Call(fcall(FloatOp::RoundEven, a, 0, 0)))
    } else if op == 37 {
        Some(Outcome::Call(fcall(FloatOp::Exp2, a, 0, 0)))
    } else if op == 39 {
        Some(Outcome::Call(fcall(FloatOp::Log2, a, 0, 0)))
    } else if op == 42 || op == 43 {
        Some(Outcome::Call(fcall(FloatOp::Rcp, a, 0, 0)))
    } else if op == 51 {
        Some(Outcome::Call(fcall(FloatOp::Sqrt, a, 0, 0)))
    } else if op == 56 {
        Some(Outcome::Value(reversed(w as nat, 32) as u32))
    } else if op == 57 {
        Some(Outcome::Value(clz_of(w)))
    } else if op == 59 {
        Some(Outcome::Value(cls_of(w)))
    } else if op == 80 || op == 81 {
        Some(Outcome::Call(fcall(FloatOp::UnsignedToHalf, a % 0x1_0000, 0, 0)))
    } else if op == 82 {
        Some(Outcome::Call(fcall(FloatOp::HalfToShort, a % 0x1_0000, 0, 0)))
    } else if op == 83 {
        Some(Outcome::Call(fcall(FloatOp::HalfToUnsigned, a % 0x1_0000, 0, 0)))
    } else {
        None
    }
}

/// VOP1: one source, to a vector register or register pair. The opcode that
/// hands lane 0's value to a scalar register works only while exactly that
/// lane is active.
pub open spec fn vop1_effects(m: Machine, word: u32) -> Result<(Machine, Effects), Fault> {
    let c0 = (word % 0x200) as usize;
    let op = (word / 0x200) % 0x100;
    let vdst = ((word / 0x2_0000) % 0x100) as usize;
    match operand(
        m,
        c0,
        if vop1_is_wide(op) {
            Width::Wide
        } else {
            Width::Word
        },
    ) {
        Err(f) => Err(f),
        Ok((a, m1)) => if op == 2 {
            if m.exec_mask != 1 {
                Err(Fault::UnsupportedInstruction(word))
            } else if vdst > 104 {
                Err(Fault::InvalidOperandCode(vdst as u32))
            } else {
                Ok(
                    (
                        m1,
                        Effects::of(
                            Write::Sgpr(vdst, a as u32),
                            Write::Skip,
                            Write::Skip,
                            Write::Skip,
                        ),
                    ),
                )
            }
        } else {
            match vop1_pair_call(op, a) {
                Some(c) => if vdst < 255 {
                    Ok((m1, Effects::asking(Request::Float(c), Pending::VectorPair(vdst))))
                } else {
                    Err(Fault::InvalidOperandCode((256 + vdst) as u32))
                },
                None => match vop1_value(op, a) {
                    Some(o) => Ok((m1, to_vector(vdst, o, None))),
                    None => Err(Fault::UnsupportedInstruction(word)),
                },
            }
        },
    }
}

fn vopc_wide_alu(op: u32, a: u64, b: u64) -> (r: bool)
    ensures
        r == vopc_wide_value(op, a, b),
{
    if op == 45 {
        !eq(Format::Double, a, b)
    } else if op == 84 {
        let sa: i128 = if a >= 0x8000_0000_0000_0000 {
            a as i128 - 0x1_0000_0000_0000_0000
        } else {
            a as i128
        };
        let sb: i128 = if b >= 0x8000_0000_0000_0000 {
            b as i128 - 0x1_0000_0000_0000_0000
        } else {
            b as i128
        };
        sa > sb
    } else if op == 89 {
        a < b
    } else if op == 90 {
        a == b
    } else {
        a != b
    }
}

fn vop2_alu(op: u32, a: u32, b: u32, vcc: u32, dst: u32, k: u32) -> (r: Option<
    (Outcome, Option<bool>),
>)
    ensures
        r == vop2_value(op, a, b, vcc, dst, k),
{
    let x: u64 = a as u64;
    let y: u64 = b as u64;
    let z: u64 = dst as u64;
    let l: u64 = k as u64;
    if op == 1 {
        Some((Outcome::Value(if vcc != 0 { b } else { a }), None))
    } else if op == 2 {
        Some((Outcome::Call(call(FloatOp::DotHalf, x, y, z)), None))
    } else if op == 50 {
        Some((Outcome::Call(call(FloatOp::AddHalf, x % 0x1_0000, y % 0x1_0000, 0)), None))
    } else if op == 53 {
        Some((Outcome::Call(call(FloatOp::MulHalf, x % 0x1_0000, y % 0x1_0000, 0)), None))
    } else if op == 3 {
        Some((Outcome::Call(call(FloatOp::Add, x, y, 0)), None))
    } else if op == 4 {
        Some((Outcome::Call(call(FloatOp::Sub, x, y, 0)), None))
    } else if op == 8 {
        Some((Outcome::Call(call(FloatOp::Mul, x, y, 0)), None))
    } else if op == 16 {
        Some((Outcome::Call(call(FloatOp::Max, x, y, 0)), None))
    } else if op == 43 {
        Some((Outcome::Call(call(FloatOp::MulAdd, x, y, z)), None))
    } else if op == 44 {
        Some((Outcome::Call(call(FloatOp::MulAdd, x, l, y)), None))
    } else if op == 45 {
        Some((Outcome::Call(call(FloatOp::MulAdd, x, y, l)), None))
    } else if op == 9 || op == 11 {
        Some((Outcome::Value(mul_low(a, b)), None))
    } else if op == 18 {
        Some((Outcome::Value(if as_signed32(a) >= as_signed32(b) { a } else { b }), None))
    } else if op == 19 {
        Some((Outcome::Value(if a <= b { a } else { b }), None))
    } else if op == 24 {
        Some((Outcome::Value(shift_left(b, a)), None))
    } else if op == 25 {
        Some((Outcome::Value(shift_right(b, a)), None))
    } else if op == 26 {
        Some((Outcome::Value(shift_right_signed(b, a)), None))
    } else if op == 27 {
        Some((Outcome::Value(a & b), None))
    } else if op == 28 {
        Some((Outcome::Value(a | b), None))
    } else if op == 29 {
        Some((Outcome::Value(a ^ b), None))
    } else if op == 32 {
        let (v, c) = add_carry(a, b, vcc);
        Some((Outcome::Value(v), Some(c)))
    } else if op == 33 {
        let (v, c) = sub_borrow(a, b, vcc);
        Some((Outcome::Value(v), Some(c)))
    } else if op == 34 {
        let (v, _) = sub_borrow(b, a, vcc);
        Some((Outcome::Value(v), Some(b as u64 + vcc as u64 > a as u64)))
    } else if op == 37 {
        Some((Outcome::Value(a.wrapping_add(b)), None))
    } else if op == 38 {
        Some((Outcome::Value(a.wrapping_sub(b)), None))
    } else if op == 39 {
        Some((Outcome::Value(b.wrapping_sub(a)), None))
    } else {
        None
    }
}

fn vop1_pair(op: u32, a: u64) -> (r: Option<FloatCall>)
    ensures
        r == vop1_pair_call(op, a),
{
    if op == 23 {
        Some(call(FloatOp::TruncDouble, a, 0, 0))
    } else if op == 26 {
        Some(call(FloatOp::FloorDouble, a, 0, 0))
    } else if op == 4 {
        Some(call(FloatOp::SignedToDouble, a, 0, 0))
    } else if op == 22 {
        Some(call(FloatOp::UnsignedToDouble, a, 0, 0))
    } else if op == 16 {
        Some(call(FloatOp::SingleToDouble, a, 0, 0))
    } else {
        None
    }
}

fn vop1_alu(op: u32, a: u64) -> (r: Option<Outcome>)
    ensures
        r == vop1_value(op, a),
{
    let w: u32 = (a % 0x1_0000_0000) as u32;
    if op == 3 {
        Some(Outcome::Call(call(FloatOp::DoubleToSigned, a, 0, 0)))
    } else if op == 15 {
        Some(Outcome::Call(call(FloatOp::DoubleToSingle, a, 0, 0)))
    } else if op == 21 {
        Some(Outcome::Call(call(FloatOp::DoubleToUnsigned, a, 0, 0)))
    } else if op == 1 {
        Some(Outcome::Value(w))
    } else if op == 5 {
        Some(Outcome::Call(call(FloatOp::SignedToSingle, a, 0, 0)))
    } else if op == 6 {
        Some(Outcome::Call(call(FloatOp::UnsignedToSingle, a, 0, 0)))
    } else if op == 7 {
        Some(Outcome::Call(call(FloatOp::SingleToUnsigned, a, 0, 0)))
    } else if op == 8 {
        Some(Outcome::Call(call(FloatOp::SingleToSigned, a, 0, 0)))
    } else if op == 10 {
        Some(Outcome::Call(call(FloatOp::SingleToHalf, a, 0, 0)))
    } else if op == 11 {
        Some(Outcome::Call(call(FloatOp::HalfToSingle, a % 0x1_0000, 0, 0)))
    } else if op == 17 {
        Some(Outcome::Call(call(FloatOp::UnsignedToSingle, a % 0x100, 0, 0)))
    } else if op == 18 {
        Some(Outcome::Call(call(FloatOp::UnsignedToSingle, (a / 0x100) % 0x100, 0, 0)))
    } else if op == 19 {
        Some(Outcome::Call(call(FloatOp::UnsignedToSingle, (a / 0x1_0000) % 0x100, 0, 0)))
    } else if op == 20 {
        Some(Outcome::Call(call(FloatOp::UnsignedToSingle, (a / 0x100_0000) % 0x100, 0, 0)))
    } else if op == 35 {
        Some(Outcome::Call(call(FloatOp::RoundEven, a, 0, 0)))
    } else if op == 37 {
        Some(Outcome::Call(call(FloatOp::Exp2, a, 0, 0)))
    } else if op == 39 {
        Some(Outcome::Call(call(FloatOp::Log2, a, 0, 0)))
    } else if op == 42 || op == 43 {
        Some(Outcome::Call(call(FloatOp::Rcp, a, 0, 0)))
    } else if op == 51 {
        Some(Outcome::Call(call(FloatOp::Sqrt, a, 0, 0)))
    } else if op == 56 {
        Some(Outcome::Value(reverse_bits(w)))
    } else if op == 57 {
        Some(Outcome::Value(clz_i32_u32(w)))
    } else if op == 59 {
        Some(Outcome::Value(cls_i32(w)))
    } else if op == 80 || op == 81 {
        Some(Outcome::Call(call(FloatOp::UnsignedToHalf, a % 0x1_0000, 0, 0)))
    } else if op == 82 {
        Some(Outcome::Call(call(FloatOp::HalfToShort, a % 0x1_0000, 0, 0)))
    } else if op == 83 {
        Some(Outcome::Call(call(FloatOp::HalfToUnsigned, a % 0x1_0000, 0, 0)))
    } else {
        None
    }
}

impl CPU {
    /// Decides a comparison opcode on two words.
    pub fn vopc(&self, s0: u32, s1: u32, op: u32, instruction: u32) -> (r: Result<bool, Fault>)
        ensures
            r == match vopc_value(op, s0, s1) {
                Some(c) => Ok::<bool, Fault>(c),
                None => Err::<bool, Fault>(Fault::UnsupportedInstruction(instruction)),
            },
    {
        let a: u64 = s0 as u64;
        let b: u64 = s1 as u64;
        let ha: u16 = low16(s0);
        let hb: u16 = low16(s1);
        if op == 13 {
            Ok(!eq(Format::Half, ha as u64, hb as u64))
        } else if op == 17 {
            Ok(lt(Format::Single, a, b))
        } else if op == 18 {
            Ok(eq(Format::Single, a, b))
        } else if op == 20 {
            Ok(lt(Format::Single, b, a))
        } else if op == 22 {
            Ok(lt(Format::Single, b, a) || eq(Format::Single, a, b))
        } else if op == 27 || op == 155 {
            Ok(!lt(Format::Single, b, a))
        } else if op == 29 {
            Ok(!eq(Format::Single, a, b))
        } else if op == 30 || op == 158 {
            Ok(!lt(Format::Single, a, b))
        } else if op == 126 {
            Ok(matches_class(Format::Single, a, s1))
        } else if op == 52 {
            Ok(as_signed16(ha) > as_signed16(hb))
        } else if op == 65 {
            Ok(as_signed16(ha) < as_signed16(hb))
        } else if op == 57 {
            Ok(ha < hb)
        } else if op == 58 {
            Ok(ha == hb)
        } else if op == 60 {
            Ok(ha > hb)
        } else if op == 61 {
            Ok(ha != hb)
        } else if op == 62 {
            Ok(ha >= hb)
        } else if op == 68 || op == 196 {
            Ok(as_signed32(s0) > as_signed32(s1))
        } else if op == 70 {
            Ok(as_signed32(s0) >= as_signed32(s1))
        } else if op == 193 {
            Ok(as_signed32(s0) < as_signed32(s1))
        } else if op == 73 || op == 201 {
            Ok(s0 < s1)
        } else if op == 74 || op == 202 {
            Ok(s0 == s1)
        } else if op == 76 {
            Ok(s0 > s1)
        } else if op == 77 || op == 205 {
            Ok(s0 != s1)
        } else {
            Err(Fault::UnsupportedInstruction(instruction))
        }
    }

    /// Plans a VOPC instruction.
    pub fn vopc_family(&mut self, word: u32) -> (r: Result<Effects, Fault>)
        ensures
            planned(old(self)@, final(self)@, r, vopc_effects(old(self)@, word)),
    {
        let c0: usize = (word % 0x200) as usize;
        let v1: usize = ((word / 0x200) % 0x100) as usize;
        let op: u32 = (word / 0x2_0000) % 0x100;
        let wide: bool = op == 45 || op == 84 || op == 89 || op == 90 || op == 93;
        let width = if wide {
            Width::Wide
        } else if op == 13 {
            Width::Half
        } else {
            Width::Word
        };
        let a: u64 = self.resolve(c0, width)?;
        let c: bool = if wide {
            if v1 < 255 {
                vopc_wide_alu(op, a, self.vec_reg.read64(v1))
            } else {
                return Err(Fault::InvalidOperandCode((256 + v1) as u32));
            }
        } else {
            self.vopc(a as u32, self.vec_reg.get(v1), op, word)?
        };
        Ok(
            Effects::one(
                if op >= 128 {
                    Write::Exec(flag(c))
                } else {
                    Write::Vcc(flag(c))
                },
            ),
        )
    }

    /// Plans a VOP2 instruction.
    pub fn vop2(&mut self, word: u32) -> (r: Result<Effects, Fault>)
        ensures
            planned(old(self)@, final(self)@, r, vop2_effects(old(self)@, word)),
    {
        let c0: usize = (word % 0x200) as usize;
        let v1: usize = ((word / 0x200) % 0x100) as usize;
        let vdst: usize = ((word / 0x2_0000) % 0x100) as usize;
        let op: u32 = (word / 0x200_0000) % 0x40;
        let a: u64 = self.resolve(c0, Width::Word)?;
        let k: u32 = if op == 44 || op == 45 {
            self.simm()?
        } else {
            0
        };
        match vop2_alu(op, a as u32, self.vec_reg.get(v1), *self.vcc, self.vec_reg.get(vdst), k) {
            None => Err(Fault::UnsupportedInstruction(word)),
            Some((o, vcc)) => Ok(vector_effects(vdst, o, vcc)),
        }
    }

    /// Plans a VOP1 instruction.
    pub fn vop1(&mut self, word: u32) -> (r: Result<Effects, Fault>)
        ensures
            planned(old(self)@, final(self)@, r, vop1_effects(old(self)@, word)),
    {
        let c0: usize = (word % 0x200) as usize;
        let op: u32 = (word / 0x200) % 0x100;
        let vdst: usize = ((word / 0x2_0000) % 0x100) as usize;
        let wide: bool = op == 3 || op == 15 || op == 21 || op == 23 || op == 26;
        let a: u64 = self.resolve(
            c0,
            if wide {
                Width::Wide
            } else {
                Width::Word
            },
        )?;
        if op == 2 {
            if self.exec_mask != 1 {
                Err(Fault::UnsupportedInstruction(word))
            } else if vdst > 104 {
                Err(Fault::InvalidOperandCode(vdst as u32))
            } else {
                Ok(Effects::one(Write::Sgpr(vdst, a as u32)))
            }
        } else {
            match vop1_pair(op, a) {
                Some(c) => if vdst < 255 {
                    Ok(Effects::ask(Request::Float(c), Pending::VectorPair(vdst)))
                } else {
                    Err(Fault::InvalidOperandCode((256 + vdst) as u32))
                },
                None => match vop1_alu(op, a) {
                    Some(o) => Ok(vector_effects(vdst, o, None)),
                    None => Err(Fault::UnsupportedInstruction(word)),
                },
            }
        }
    }
}

/// A VOP1 instruction that asks leaves pending what continues its
/// request.
pub proof fn lemma_vop1_asks_well(m: Machine, word: u32)
    requires
        vop1_effects(m, word) is Ok,
    ensures
        asks_well(vop1_effects(m, word)->Ok_0.1),
{
}

/// A VOP2 instruction that asks leaves pending what continues its
/// request.
pub proof fn lemma_vop2_asks_well(m: Machine, word: u32)
    requires
        vop2_effects(m, word) is Ok,
    ensures
        asks_well(vop2_effects(m, word)->Ok_0.1),
{
}

/// A VOPC instruction that asks leaves pending what continues its
/// request.
pub proof fn lemma_vopc_asks_well(m: Machine, word: u32)
    requires
        vopc_effects(m, word) is Ok,
    ensures
        asks_well(vopc_effects(m, word)->Ok_0.1),
{
}

} // verus!
