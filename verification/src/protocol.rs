//! What passes between the engine and its caller.
//!
//! The engine computes every integer instruction itself. An instruction whose
//! result is a floating-point computation, or that reads or writes the linear
//! address space, makes it stop with a [`Request`]. The caller performs the
//! request and hands the outcome back as a [`Reply`]; the engine commits it
//! and goes on. All operands and results are bit patterns.
use vstd::prelude::*;

verus! {

/// Why the engine gave up. The machine is then as it was before the
/// instruction at which it stopped.
#[derive(Clone, Copy, Debug, PartialEq, Eq, Structural)]
pub enum Fault {
    /// The word was decoded but its opcode has no semantics here. Holds the
    /// raw first word of the instruction.
    UnsupportedInstruction(u32),
    /// A known opcode asked for a modifier that is not modelled. Holds the raw
    /// first word of the instruction.
    UnsupportedModifier(u32),
    /// An operand or destination code outside every known range, or one that
    /// names a register pair or run that leaves its file. Holds the code.
    InvalidOperandCode(u32),
    /// A word was fetched beyond the end of the program.
    ProgramEnd,
    /// A load from the local scratch memory beyond its end.
    ScratchRange,
    /// The reply does not answer the request that is waiting.
    UnexpectedReply,
    /// The budget of instructions for one call was used up.
    Budget,
}

/// A floating-point computation that the caller performs. The operands `a`,
/// `b`, `c` of the call are bit patterns of the precision that the operation
/// names, in the low bits; so is the result.
#[derive(Clone, Copy, Debug, PartialEq, Eq, Structural)]
pub enum FloatOp {
    /// single: `a + b`
    Add,
    /// single: `a - b`
    Sub,
    /// single: `a * b`
    Mul,
    /// single: the larger of `a` and `b`
    Max,
    /// single: the smallest of `a`, `b`, `c`
    Min3,
    /// single: the largest of `a`, `b`, `c`
    Max3,
    /// single: `a / b`
    Div,
    /// single: `a * b + c`
    MulAdd,
    /// single: `2^32 * (a * b + c)`
    MulAddScaled,
    /// single: `a * 2^b`, with `b` a signed integer
    Ldexp,
    /// single: `a` rounded to the nearest integer: the largest integer that
    /// is not above `a + 0.5`, and one less than that where `a` is positive,
    /// lies exactly halfway between two integers, and the lower of the two
    /// is odd. So 0.5 becomes 1, 1.5 becomes 1, 2.5 becomes 3 and 3.5
    /// becomes 3, while -0.5 becomes 0, -1.5 becomes -1 and -2.5 becomes -2.
    RoundEven,
    /// single: `2^a`
    Exp2,
    /// single: the logarithm of `a` to base 2
    Log2,
    /// single: `1 / a`
    Rcp,
    /// single: the square root of `a`
    Sqrt,
    /// double: `a + b`
    AddDouble,
    /// double: `a * b`
    MulDouble,
    /// double: `a * b + c`
    MulAddDouble,
    /// double: `2 * a` raised to the power `b`, with `b` a signed integer
    LdexpDouble,
    /// double: `a` rounded toward zero
    TruncDouble,
    /// double: `a` rounded down
    FloorDouble,
    /// half: `a + b`
    AddHalf,
    /// half: `a * b`
    MulHalf,
    /// `c + lo(a) * lo(b) + hi(a) * hi(b)` in single precision, where `lo`
    /// and `hi` are the two half-precision numbers packed in a register
    DotHalf,
    /// `a * b + c` in single precision. An operand with bit 32 set is a
    /// half-precision number in its low 16 bits, else a single.
    MulAddMix,
    /// As `MulAddMix`, with the result converted to half precision.
    MulAddMixHalf,
    /// double to signed 32-bit integer
    DoubleToSigned,
    /// double to unsigned 32-bit integer
    DoubleToUnsigned,
    /// double to single
    DoubleToSingle,
    /// signed 32-bit integer to double
    SignedToDouble,
    /// unsigned 32-bit integer to double
    UnsignedToDouble,
    /// single to double
    SingleToDouble,
    /// signed 32-bit integer to single
    SignedToSingle,
    /// unsigned 32-bit integer to single
    UnsignedToSingle,
    /// single to unsigned 32-bit integer
    SingleToUnsigned,
    /// single to signed 32-bit integer
    SingleToSigned,
    /// single to half
    SingleToHalf,
    /// half to single
    HalfToSingle,
    /// unsigned integer to half, by way of single precision
    UnsignedToHalf,
    /// half to signed 16-bit integer, sign-extended to 32 bits
    HalfToShort,
    /// half to unsigned 32-bit integer
    HalfToUnsigned,
}

/// One call of the floating-point unit.
#[derive(Clone, Copy, Debug, PartialEq, Eq, Structural)]
pub struct FloatCall {
    pub op: FloatOp,
    pub a: u64,
    pub b: u64,
    pub c: u64,
}

/// Work that the engine asks of its caller.
#[derive(Clone, Copy, Debug, PartialEq, Eq, Structural)]
pub enum Request {
    /// Compute, and reply with `Reply::Value`.
    Float(FloatCall),
    /// Read `len` bytes at `addr` in the linear address space, and reply with
    /// them as `Reply::Data`.
    Load { addr: u64, len: usize },
    /// Write the lowest `len` bytes of `data`, least significant first, at
    /// `addr` in the linear address space, and reply with `Reply::Stored`.
    Store { addr: u64, len: usize, data: u128 },
}

/// The caller's answer to a request.
pub enum Reply {
    Value(u64),
    Data(Vec<u8>),
    Stored,
}

/// How a call of the engine ended.
#[derive(Clone, Copy, Debug, PartialEq, Eq, Structural)]
pub enum Status {
    /// The terminator word was reached.
    Halted,
    /// The engine waits for the reply to this request.
    Waiting(Request),
}

/// What the engine does with the reply that it waits for.
#[derive(Clone, Copy, Debug, PartialEq, Eq, Structural)]
pub enum Pending {
    /// No request is out.
    Idle,
    /// The low word of the value goes to a vector register.
    Vector(usize),
    /// The value goes to a pair of vector registers.
    VectorPair(usize),
    /// The low word of the value goes to the first vector register; then the
    /// call is requested, for the second one.
    VectorThen(usize, FloatCall, usize),
    /// The data fills scalar registers, one word each, from the first on.
    Scalars(usize, usize),
    /// The data fills vector registers, one word each, from the first on.
    Vectors(usize, usize),
    /// The data, one or two bytes, goes to a vector register, extended by
    /// its sign if the flag is set.
    Narrow(usize, usize, bool),
    /// Nothing is to be done once the store was made.
    Store,
}

/// Whether what is pending names registers that exist.
pub open spec fn in_range(pending: Pending) -> bool {
    match pending {
        Pending::Idle => true,
        Pending::Vector(i) => i < 256,
        Pending::VectorPair(i) => i + 1 < 256,
        Pending::VectorThen(i, _, j) => i < 256 && j < 256,
        Pending::Scalars(first, n) => first + n <= 105,
        Pending::Vectors(first, n) => first + n <= 256,
        Pending::Narrow(i, bytes, _) => i < 256 && 1 <= bytes <= 2,
        Pending::Store => true,
    }
}

/// Whether what is pending is the continuation of a request.
pub open spec fn expects(pending: Pending, request: Request) -> bool {
    match (pending, request) {
        (Pending::Vector(_), Request::Float(_)) => true,
        (Pending::VectorPair(_), Request::Float(_)) => true,
        (Pending::VectorThen(_, _, _), Request::Float(_)) => true,
        (Pending::Scalars(_, n), Request::Load { addr, len }) => len == 4 * n,
        (Pending::Vectors(_, n), Request::Load { addr, len }) => len == 4 * n,
        (Pending::Narrow(_, bytes, _), Request::Load { addr, len }) => len == bytes,
        (Pending::Store, Request::Store { addr, len, data }) => true,
        _ => false,
    }
}

/// Whether a reply is of the kind and size that a request asks for.
pub open spec fn answers(request: Request, reply: Reply) -> bool {
    match (request, reply) {
        (Request::Float(_), Reply::Value(_)) => true,
        (Request::Load { addr, len }, Reply::Data(d)) => d@.len() == len,
        (Request::Store { addr, len, data }, Reply::Stored) => true,
        _ => false,
    }
}

/// One change to the machine.
#[derive(Clone, Copy, Debug, PartialEq, Eq, Structural)]
pub enum Write {
    Skip,
    /// A scalar register and its new value.
    Sgpr(usize, u32),
    /// A lane, a vector register and its new value.
    Vgpr(usize, usize, u32),
    Scc(u32),
    /// The vector condition code takes the lowest bit of the value.
    Vcc(u32),
    Exec(u32),
    /// A byte address in the local scratch memory and the word stored there,
    /// least significant byte first.
    Scratch(usize, u32),
}

/// What follows the changes of an instruction.
#[derive(Clone, Copy, Debug, PartialEq, Eq, Structural)]
pub enum Next {
    /// The next instruction.
    Continue,
    /// A request to the caller, and what is to be done with the reply.
    Ask(Request, Pending),
}

/// Everything an instruction does besides advancing the program counter: up
/// to four changes, made in this order, and what follows.
#[derive(Clone, Copy, Debug, PartialEq, Eq, Structural)]
pub struct Effects {
    pub w0: Write,
    pub w1: Write,
    pub w2: Write,
    pub w3: Write,
    pub next: Next,
}

impl Effects {
    /// Four changes, with nothing to follow.
    pub open spec fn of(w0: Write, w1: Write, w2: Write, w3: Write) -> Effects {
        Effects { w0, w1, w2, w3, next: Next::Continue }
    }

    /// No change, and a request to the caller.
    pub open spec fn asking(request: Request, pending: Pending) -> Effects {
        Effects {
            w0: Write::Skip,
            w1: Write::Skip,
            w2: Write::Skip,
            w3: Write::Skip,
            next: Next::Ask(request, pending),
        }
    }

    /// No change.
    pub fn none() -> (r: Effects)
        ensures
            r == Effects::of(Write::Skip, Write::Skip, Write::Skip, Write::Skip),
    {
        Effects {
            w0: Write::Skip,
            w1: Write::Skip,
            w2: Write::Skip,
            w3: Write::Skip,
            next: Next::Continue,
        }
    }

    /// One change.
    pub fn one(w0: Write) -> (r: Effects)
        ensures
            r == Effects::of(w0, Write::Skip, Write::Skip, Write::Skip),
    {
        Effects { w0, w1: Write::Skip, w2: Write::Skip, w3: Write::Skip, next: Next::Continue }
    }

    /// Two changes, in this order.
    pub fn two(w0: Write, w1: Write) -> (r: Effects)
        ensures
            r == Effects::of(w0, w1, Write::Skip, Write::Skip),
    {
        Effects { w0, w1, w2: Write::Skip, w3: Write::Skip, next: Next::Continue }
    }

    /// Three changes, in this order.
    pub fn three(w0: Write, w1: Write, w2: Write) -> (r: Effects)
        ensures
            r == Effects::of(w0, w1, w2, Write::Skip),
    {
        Effects { w0, w1, w2, w3: Write::Skip, next: Next::Continue }
    }

    /// Four changes, in this order.
    pub fn four(w0: Write, w1: Write, w2: Write, w3: Write) -> (r: Effects)
        ensures
            r == Effects::of(w0, w1, w2, w3),
    {
        Effects { w0, w1, w2, w3, next: Next::Continue }
    }

    /// No change, and a request to the caller.
    pub fn ask(request: Request, pending: Pending) -> (r: Effects)
        ensures
            r == Effects::asking(request, pending),
    {
        Effects {
            w0: Write::Skip,
            w1: Write::Skip,
            w2: Write::Skip,
            w3: Write::Skip,
            next: Next::Ask(request, pending),
        }
    }
}

} // verus!
