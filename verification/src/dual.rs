//! The dual-issue vector encoding VOPD and the packed encoding VOPP.
use vstd::prelude::*;
use crate::arith::{low16, high16, shift_left, shl32, wrap16, wrap32};
use crate::cpu::{asks_well, literal, operand, operands3, planned, wide_instruction, Machine, Width, CPU};
use crate::protocol::{Effects, Fault, FloatOp, Next, Pending, Request, Write};
use crate::utils::{bit_at, nth};
use crate::vector::{call, fcall, to_vector, vector_effects, Outcome};

verus! {

/// The fields of a VOPD encoding. `X` and `Y` are its two sides.
pub struct DualFields {
    pub sx: usize,
    pub vx: usize,
    pub opx: u32,
    pub vdstx: usize,
    pub sy: usize,
    pub vy: usize,
    pub opy: u32,
    pub vdsty: usize,
}

/// The destination of the Y side is twice its seven-bit field, plus one if
/// the destination of the X side is even: the two always differ in their
/// lowest bit.
pub open spec fn dual_fields(instr: u64) -> DualFields {
    let vdstx = instr / 0x100_0000_0000_0000;
    DualFields {
        sx: (instr % 0x200) as usize,
        vx: ((instr / 0x200) % 0x100) as usize,
        opx: ((instr / 0x40_0000) % 0x10) as u32,
        vdstx: vdstx as usize,
        sy: ((instr / 0x1_0000_0000) % 0x200) as usize,
        vy: ((instr / 0x200_0000_0000) % 0x100) as usize,
        opy: ((instr / 0x2_0000) % 0x20) as u32,
        vdsty: (2 * ((instr / 0x2_0000_0000_0000) % 0x80) + (1 - vdstx % 2)) as usize,
    }
}

/// Takes a VOPD encoding apart.
pub fn decode_dual(instr: u64) -> (r: DualFields)
    ensures
        r == dual_fields(instr),
        r.vx < 256,
        r.vy < 256,
        r.vdstx < 256,
        r.vdsty < 256,
{
    let vdstx: u64 = instr / 0x100_0000_0000_0000;
    DualFields {
        sx: (instr % 0x200) as usize,
        vx: ((instr / 0x200) % 0x100) as usize,
        opx: ((instr / 0x40_0000) % 0x10) as u32,
        vdstx: vdstx as usize,
        sy: ((instr / 0x1_0000_0000) % 0x200) as usize,
        vy: ((instr / 0x200_0000_0000) % 0x100) as usize,
        opy: ((instr / 0x2_0000) % 0x20) as u32,
        vdsty: (2 * ((instr / 0x2_0000_0000_0000) % 0x80) + (1 - vdstx % 2)) as usize,
    }
}

proof fn lemma_dual_bits(instr: u64)
    by (bit_vector)
    ensures
        ((((instr >> 49) & 0x7f) << 1) | ((((instr >> 56) & 0xff) & 1) ^ 1)) == 2 * ((instr
            / 0x2_0000_0000_0000) % 0x80) + (1 - (instr / 0x100_0000_0000_0000) % 2),
        (instr >> 56) & 0xff == instr / 0x100_0000_0000_0000,
{
}

/// The two destinations of a dual-issue instruction lie in registers of
/// different parity: the lowest bit of the Y destination is the complement
/// of the lowest bit of the X destination. In terms of the encoding's bits
/// the Y destination is its seven-bit field shifted left once, with the
/// inverted lowest bit of the X destination in the place that opens.
pub proof fn lemma_dual_parity(instr: u64)
    ensures
        dual_fields(instr).vdsty % 2 == 1 - dual_fields(instr).vdstx % 2,
        dual_fields(instr).vdsty != dual_fields(instr).vdstx,
        dual_fields(instr).vdstx < 256,
        dual_fields(instr).vdsty < 256,
        dual_fields(instr).vdsty == (((instr >> 49) & 0x7f) << 1) | ((((instr >> 56) & 0xff) & 1)
            ^ 1),
{
    lemma_dual_bits(instr);
}

/// The opcodes of one side that read the literal as an operand of their
/// own.
pub open spec fn dual_needs_literal(op: u32) -> bool {
    op == 1 || op == 2
}

/// What one side yields: `a` is its source, `b` its vector operand, `dst`
/// what its destination holds and `k` the shared literal. `None` for an
/// opcode without semantics.
pub open spec fn dual_value(op: u32, a: u32, b: u32, dst: u32, k: u32, vcc: u32) -> Option<
    Outcome,
> {
    let (x, y) = (a as u64, b as u64);
    if op == 0 {
        Some(Outcome::Call(fcall(FloatOp::MulAdd, x, y, dst as u64)))
    } else if op == 1 {
        Some(Outcome::Call(fcall(FloatOp::MulAdd, x, y, k as u64)))
    } else if op == 2 {
        Some(Outcome::Call(fcall(FloatOp::MulAdd, x, k as u64, y)))
    } else if op == 3 {
        Some(Outcome::Call(fcall(FloatOp::Mul, x, y, 0)))
    } else if op == 4 {
        Some(Outcome::Call(fcall(FloatOp::Add, x, y, 0)))
    } else if op == 5 {
        Some(Outcome::Call(fcall(FloatOp::Sub, x, y, 0)))
    } else if op == 6 {
        Some(Outcome::Call(fcall(FloatOp::Sub, y, x, 0)))
    } else if op == 10 {
        Some(Outcome::Call(fcall(FloatOp::Max, x, y, 0)))
    } else if op == 8 {
        Some(Outcome::Value(a))
    } else if op == 9 {
        Some(Outcome::Value(if vcc != 0 { b } else { a }))
    } else if op == 16 {
        Some(Outcome::Value(wrap32(a + b)))
    } else if op == 17 {
        Some(Outcome::Value(shl32(b, a)))
    } else if op == 18 {
        Some(Outcome::Value(a & b))
    } else {
        None
    }
}

/// The shared literal after a side has looked for it: a side that needs the
/// literal and finds none yet reads it from the program.
pub open spec fn dual_literal(m: Machine, op: u32, shared: Option<u32>) -> Result<
    (Option<u32>, Machine),
    Fault,
> {
    if dual_needs_literal(op) && shared is None {
        match literal(m) {
            Err(f) => Err(f),
            Ok((k, m1)) => Ok((Some(k), m1)),
        }
    } else {
        Ok((shared, m))
    }
}

/// The literal as a number; zero where there is none.
pub open spec fn literal_or_zero(shared: Option<u32>) -> u32 {
    match shared {
        Some(k) => k,
        None => 0,
    }
}

/// The effects of both sides together. A value is written at once; a call
/// is requested, and where both sides call, the second call follows the
/// first reply.
pub open spec fn dual_combine(x: Outcome, vdstx: usize, y: Outcome, vdsty: usize) -> Effects {
    match (x, y) {
        (Outcome::Value(a), Outcome::Value(b)) => Effects::of(
            Write::Vgpr(0, vdstx, a),
            Write::Vgpr(0, vdsty, b),
            Write::Skip,
            Write::Skip,
        ),
        (Outcome::Call(c), Outcome::Value(b)) => Effects {
            w0: Write::Vgpr(0, vdsty, b),
            w1: Write::Skip,
            w2: Write::Skip,
            w3: Write::Skip,
            next: Next::Ask(Request::Float(c), Pending::Vector(vdstx)),
        },
        (Outcome::Value(a), Outcome::Call(d)) => Effects {
            w0: Write::Vgpr(0, vdstx, a),
            w1: Write::Skip,
            w2: Write::Skip,
            w3: Write::Skip,
            next: Next::Ask(Request::Float(d), Pending::Vector(vdsty)),
        },
        (Outcome::Call(c), Outcome::Call(d)) => Effects::asking(
            Request::Float(c),
            Pending::VectorThen(vdstx, d, vdsty),
        ),
    }
}

/// VOPD: two vector opcodes in one two-word encoding, with all operands
/// read before either result is written. A source code of 255 on either
/// side stands for the one literal that both sides share; it is read once.
pub open spec fn vopd_effects(m: Machine, word: u32) -> Result<(Machine, Effects), Fault> {
    match wide_instruction(m) {
        Err(e) => Err(e),
        Ok((instr, m0)) => {
            let f = dual_fields(instr);
            match operand(m0, f.sx, Width::Word) {
                Err(e) => Err(e),
                Ok((x0, m1)) => match (if f.sy == 255 && f.sx == 255 {
                    Ok((x0, m1))
                } else {
                    operand(m1, f.sy, Width::Word)
                }) {
                    Err(e) => Err(e),
                    Ok((y0, m2)) => {
                        let shared = if f.sy == 255 {
                            Some(y0 as u32)
                        } else if f.sx == 255 {
                            Some(x0 as u32)
                        } else {
                            None
                        };
                        match dual_literal(m2, f.opx, shared) {
                            Err(e) => Err(e),
                            Ok((kx, m3)) => match dual_value(
                                f.opx,
                                x0 as u32,
                                m.vgpr[0][f.vx as int],
                                m.vgpr[0][f.vdstx as int],
                                literal_or_zero(kx),
                                m.vcc,
                            ) {
                                None => Err(Fault::UnsupportedInstruction(word)),
                                Some(ox) => match dual_literal(m3, f.opy, kx) {
                                    Err(e) => Err(e),
                                    Ok((ky, m4)) => match dual_value(
                                        f.opy,
                                        y0 as u32,
                                        m.vgpr[0][f.vy as int],
                                        m.vgpr[0][f.vdsty as int],
                                        literal_or_zero(ky),
                                        m.vcc,
                                    ) {
                                        None => Err(Fault::UnsupportedInstruction(word)),
                                        Some(oy) => Ok(
                                            (m4, dual_combine(ox, f.vdstx, oy, f.vdsty)),
                                        ),
                                    },
                                },
                            },
                        }
                    },
                },
            }
        },
    }
}

/// Where both sides of a dual-issue instruction take the literal as an
/// operand of their own and neither names it as its source, one literal
/// word is read, the one behind the encoding, and both sides compute with
/// it; the program counter then stands behind that word.
pub proof fn lemma_shared_literal(m: Machine, word: u32)
    requires
        wide_instruction(m) is Ok,
        ({
            let (instr, m0) = wide_instruction(m)->Ok_0;
            let f = dual_fields(instr);
            &&& f.sx != 255
            &&& f.sy != 255
            &&& operand(m0, f.sx, Width::Word) is Ok
            &&& operand(m0, f.sx, Width::Word)->Ok_0.1 == m0
            &&& operand(m0, f.sy, Width::Word) is Ok
            &&& operand(m0, f.sy, Width::Word)->Ok_0.1 == m0
            &&& dual_needs_literal(f.opx)
            &&& dual_needs_literal(f.opy)
            &&& m0.pc < m0.prg.len()
        }),
    ensures
        ({
            let (instr, m0) = wide_instruction(m)->Ok_0;
            let f = dual_fields(instr);
            let k = m0.prg[m0.pc as int];
            let x0 = operand(m0, f.sx, Width::Word)->Ok_0.0 as u32;
            let y0 = operand(m0, f.sy, Width::Word)->Ok_0.0 as u32;
            vopd_effects(m, word) == Ok::<(Machine, Effects), Fault>(
                (
                    m0.at((m0.pc + 1) as u64),
                    dual_combine(
                        dual_value(
                            f.opx,
                            x0,
                            m.vgpr[0][f.vx as int],
                            m.vgpr[0][f.vdstx as int],
                            k,
                            m.vcc,
                        )->Some_0,
                        f.vdstx,
                        dual_value(
                            f.opy,
                            y0,
                            m.vgpr[0][f.vy as int],
                            m.vgpr[0][f.vdsty as int],
                            k,
                            m.vcc,
                        )->Some_0,
                        f.vdsty,
                    ),
                ),
            )
        }),
{
}

/// The fields of a VOPP encoding.
pub struct PackedFields {
    pub vdst: usize,
    pub neg_hi: u64,
    pub opsel: u32,
    pub clamp: u64,
    pub op: u32,
    pub c0: usize,
    pub c1: usize,
    pub c2: usize,
    pub opsel_hi: u32,
    pub neg: u64,
}

/// The fields of a VOPP encoding, by their bits.
pub open spec fn packed_fields(instr: u64) -> PackedFields {
    PackedFields {
        vdst: (instr % 0x100) as usize,
        neg_hi: (instr / 0x100) % 8,
        opsel: ((instr / 0x800) % 8) as u32,
        clamp: (instr / 0x8000) % 2,
        op: ((instr / 0x1_0000) % 0x80) as u32,
        c0: ((instr / 0x1_0000_0000) % 0x200) as usize,
        c1: ((instr / 0x200_0000_0000) % 0x200) as usize,
        c2: ((instr / 0x4_0000_0000_0000) % 0x200) as usize,
        opsel_hi: ((instr / 0x800_0000_0000_0000) % 4) as u32,
        neg: instr / 0x2000_0000_0000_0000,
    }
}

/// Takes a VOPP encoding apart.
pub fn decode_packed(instr: u64) -> (r: PackedFields)
    ensures
        r == packed_fields(instr),
        r.vdst < 256,
        r.opsel < 8,
        r.opsel_hi < 4,
{
    PackedFields {
        vdst: (instr % 0x100) as usize,
        neg_hi: (instr / 0x100) % 8,
        opsel: ((instr / 0x800) % 8) as u32,
        clamp: (instr / 0x8000) % 2,
        op: ((instr / 0x1_0000) % 0x80) as u32,
        c0: ((instr / 0x1_0000_0000) % 0x200) as usize,
        c1: ((instr / 0x200_0000_0000) % 0x200) as usize,
        c2: ((instr / 0x4_0000_0000_0000) % 0x200) as usize,
        opsel_hi: ((instr / 0x800_0000_0000_0000) % 4) as u32,
        neg: instr / 0x2000_0000_0000_0000,
    }
}

/// The result of a packed 16-bit integer opcode: the opcode applied to the
/// low halves and to the high halves of the two registers, each result
/// modulo 2^16. `None` for an opcode without semantics.
pub open spec fn packed_value(op: u32, a: u32, b: u32) -> Option<u32> {
    let (la, ha) = (a % 0x1_0000, a / 0x1_0000);
    let (lb, hb) = (b % 0x1_0000, b / 0x1_0000);
    if op == 1 {
        Some((wrap16(ha * hb) * 0x1_0000 + wrap16(la * lb)) as u32)
    } else if op == 10 {
        Some((wrap16(ha + hb) * 0x1_0000 + wrap16(la + lb)) as u32)
    } else if op == 11 {
        Some((wrap16(ha - hb) * 0x1_0000 + wrap16(la - lb)) as u32)
    } else {
        None
    }
}

/// Source `i` of a mixed-precision opcode as the floating-point unit gets
/// it. Where bit `i` of `opsel_hi` is clear the source is the whole register,
/// a single precision number; else it is a half precision number, the upper
/// half of the register where bit `i` of `opsel` is set, the lower half where
/// not, and is marked as such by bit 32. The encoding gives `opsel_hi` two
/// bits, so the third source is always a whole register.
pub open spec fn mix_operand(src: u32, opsel: u32, opsel_hi: u32, i: nat) -> u64 {
    if bit_at(opsel_hi, i) == 0 {
        src as u64
    } else if bit_at(opsel, i) == 1 {
        (0x1_0000_0000 + src / 0x1_0000) as u64
    } else {
        (0x1_0000_0000 + src % 0x1_0000) as u64
    }
}

/// VOPP: packed 16-bit arithmetic and mixed-precision multiply-add. No
/// modifier is modelled.
pub open spec fn vopp_effects(m: Machine, word: u32) -> Result<(Machine, Effects), Fault> {
    match wide_instruction(m) {
        Err(e) => Err(e),
        Ok((instr, m0)) => {
            let f = packed_fields(instr);
            match operands3(m0, f.c0, Width::Word, f.c1, Width::Word, f.c2, Width::Word) {
                Err(e) => Err(e),
                Ok((a, b, c, m1)) => if f.clamp != 0 || f.neg != 0 || f.neg_hi != 0 {
                    Err(Fault::UnsupportedModifier(word))
                } else if f.op == 32 || f.op == 33 {
                    Ok(
                        (
                            m1,
                            to_vector(
                                f.vdst,
                                Outcome::Call(
                                    fcall(
                                        if f.op == 32 {
                                            FloatOp::MulAddMix
                                        } else {
                                            FloatOp::MulAddMixHalf
                                        },
                                        mix_operand(a as u32, f.opsel, f.opsel_hi, 0),
                                        mix_operand(b as u32, f.opsel, f.opsel_hi, 1),
                                        mix_operand(c as u32, f.opsel, f.opsel_hi, 2),
                                    ),
                                ),
                                None,
                            ),
                        ),
                    )
                } else {
                    match packed_value(f.op, a as u32, b as u32) {
                        None => Err(Fault::UnsupportedInstruction(word)),
                        Some(v) => Ok((m1, to_vector(f.vdst, Outcome::Value(v), None))),
                    }
                },
            }
        },
    }
}

fn dual_alu(op: u32, a: u32, b: u32, dst: u32, k: u32, vcc: u32) -> (r: Option<Outcome>)
    ensures
        r == dual_value(op, a, b, dst, k, vcc),
{
    let x: u64 = a as u64;
    let y: u64 = b as u64;
    if op == 0 {
        Some(Outcome::Call(call(FloatOp::MulAdd, x, y, dst as u64)))
    } else if op == 1 {
        Some(Outcome::Call(call(FloatOp::MulAdd, x, y, k as u64)))
    } else if op == 2 {
        Some(Outcome::Call(call(FloatOp::MulAdd, x, k as u64, y)))
    } else if op == 3 {
        Some(Outcome::Call(call(FloatOp::Mul, x, y, 0)))
    } else if op == 4 {
        Some(Outcome::Call(call(FloatOp::Add, x, y, 0)))
    } else if op == 5 {
        Some(Outcome::Call(call(FloatOp::Sub, x, y, 0)))
    } else if op == 6 {
        Some(Outcome::Call(call(FloatOp::Sub, y, x, 0)))
    } else if op == 10 {
        Some(Outcome::Call(call(FloatOp::Max, x, y, 0)))
    } else if op == 8 {
        Some(Outcome::Value(a))
    } else if op == 9 {
        Some(Outcome::Value(if vcc != 0 { b } else { a }))
    } else if op == 16 {
        Some(Outcome::Value(a.wrapping_add(b)))
    } else if op == 17 {
        Some(Outcome::Value(shift_left(b, a)))
    } else if op == 18 {
        Some(Outcome::Value(a & b))
    } else {
        None
    }
}

fn combine(x: Outcome, vdstx: usize, y: Outcome, vdsty: usize) -> (r: Effects)
    ensures
        r == dual_combine(x, vdstx, y, vdsty),
{
    match (x, y) {
        (Outcome::Value(a), Outcome::Value(b)) => Effects::two(
            Write::Vgpr(0, vdstx, a),
            Write::Vgpr(0, vdsty, b),
        ),
        (Outcome::Call(c), Outcome::Value(b)) => Effects {
            w0: Write::Vgpr(0, vdsty, b),
            w1: Write::Skip,
            w2: Write::Skip,
            w3: Write::Skip,
            next: Next::Ask(Request::Float(c), Pending::Vector(vdstx)),
        },
        (Outcome::Value(a), Outcome::Call(d)) => Effects {
            w0: Write::Vgpr(0, vdstx, a),
            w1: Write::Skip,
            w2: Write::Skip,
            w3: Write::Skip,
            next: Next::Ask(Request::Float(d), Pending::Vector(vdsty)),
        },
        (Outcome::Call(c), Outcome::Call(d)) => Effects::ask(
            Request::Float(c),
            Pending::VectorThen(vdstx, d, vdsty),
        ),
    }
}

fn packed_alu(op: u32, a: u32, b: u32) -> (r: Option<u32>)
    ensures
        r == packed_value(op, a, b),
{
    let la: u16 = low16(a);
    let ha: u16 = high16(a);
    let lb: u16 = low16(b);
    let hb: u16 = high16(b);
    if op == 1 {
        Some((ha.wrapping_mul(hb) as u32) * 0x1_0000 + la.wrapping_mul(lb) as u32)
    } else if op == 10 {
        Some((ha.wrapping_add(hb) as u32) * 0x1_0000 + la.wrapping_add(lb) as u32)
    } else if op == 11 {
        Some((ha.wrapping_sub(hb) as u32) * 0x1_0000 + la.wrapping_sub(lb) as u32)
    } else {
        None
    }
}

fn mix(src: u32, opsel: u32, opsel_hi: u32, i: usize) -> (r: u64)
    requires
        i < 32,
    ensures
        r == mix_operand(src, opsel, opsel_hi, i as nat),
{
    if nth(opsel_hi, 31 - i) == 0 {
        src as u64
    } else if nth(opsel, 31 - i) == 1 {
        0x1_0000_0000 + (src / 0x1_0000) as u64
    } else {
        0x1_0000_0000 + (src % 0x1_0000) as u64
    }
}

impl CPU {
    /// Lets one side of a dual-issue instruction look for the shared
    /// literal.
    fn dual_simm(&mut self, op: u32, shared: Option<u32>) -> (r: Result<Option<u32>, Fault>)
        ensures
            match dual_literal(old(self)@, op, shared) {
                Ok((k, m)) => r == Ok::<Option<u32>, Fault>(k) && final(self)@ == m,
                Err(f) => r == Err::<Option<u32>, Fault>(f) && final(self)@ == old(self)@,
            },
    {
        if (op == 1 || op == 2) && shared.is_none() {
            let k: u32 = self.simm()?;
            Ok(Some(k))
        } else {
            Ok(shared)
        }
    }

    /// Plans a VOPD instruction.
    pub fn vopd(&mut self, word: u32) -> (r: Result<Effects, Fault>)
        ensures
            planned(old(self)@, final(self)@, r, vopd_effects(old(self)@, word)),
    {
        let vcc: u32 = *self.vcc;
        let instr: u64 = self.u64_instr()?;
        let f = decode_dual(instr);
        let x0: u64 = self.resolve(f.sx, Width::Word)?;
        let y0: u64 = if f.sy == 255 && f.sx == 255 {
            x0
        } else {
            self.resolve(f.sy, Width::Word)?
        };
        let x1: u32 = self.vec_reg.get(f.vx);
        let y1: u32 = self.vec_reg.get(f.vy);
        let dx: u32 = self.vec_reg.get(f.vdstx);
        let dy: u32 = self.vec_reg.get(f.vdsty);
        let shared: Option<u32> = if f.sy == 255 {
            Some(y0 as u32)
        } else if f.sx == 255 {
            Some(x0 as u32)
        } else {
            None
        };
        let kx: Option<u32> = self.dual_simm(f.opx, shared)?;
        let ox = match dual_alu(
            f.opx,
            x0 as u32,
            x1,
            dx,
            match kx {
                Some(k) => k,
                None => 0,
            },
            vcc,
        ) {
            Some(o) => o,
            None => {
                return Err(Fault::UnsupportedInstruction(word));
            },
        };
        let ky: Option<u32> = self.dual_simm(f.opy, kx)?;
        let oy = match dual_alu(
            f.opy,
            y0 as u32,
            y1,
            dy,
            match ky {
                Some(k) => k,
                None => 0,
            },
            vcc,
        ) {
            Some(o) => o,
            None => {
                return Err(Fault::UnsupportedInstruction(word));
            },
        };
        Ok(combine(ox, f.vdstx, oy, f.vdsty))
    }

    /// Plans a VOPP instruction.
    pub fn vopp(&mut self, word: u32) -> (r: Result<Effects, Fault>)
        ensures
            planned(old(self)@, final(self)@, r, vopp_effects(old(self)@, word)),
    {
        let instr: u64 = self.u64_instr()?;
        let f = decode_packed(instr);
        let a: u64 = self.resolve(f.c0, Width::Word)?;
        let b: u64 = self.resolve(f.c1, Width::Word)?;
        let c: u64 = self.resolve(f.c2, Width::Word)?;
        if f.clamp != 0 || f.neg != 0 || f.neg_hi != 0 {
            Err(Fault::UnsupportedModifier(word))
        } else if f.op == 32 || f.op == 33 {
            let op = if f.op == 32 {
                FloatOp::MulAddMix
            } else {
                FloatOp::MulAddMixHalf
            };
            Ok(
                vector_effects(
                    f.vdst,
                    Outcome::Call(
                        call(
                            op,
                            mix(a as u32, f.opsel, f.opsel_hi, 0),
                            mix(b as u32, f.opsel, f.opsel_hi, 1),
                            mix(c as u32, f.opsel, f.opsel_hi, 2),
                        ),
                    ),
                    None,
                ),
            )
        } else {
            match packed_alu(f.op, a as u32, b as u32) {
                None => Err(Fault::UnsupportedInstruction(word)),
                Some(v) => Ok(vector_effects(f.vdst, Outcome::Value(v), None)),
            }
        }
    }
}

/// A VOPD instruction that asks leaves pending what continues its
/// request.
pub proof fn lemma_vopd_asks_well(m: Machine, word: u32)
    requires
        vopd_effects(m, word) is Ok,
    ensures
        asks_well(vopd_effects(m, word)->Ok_0.1),
{
}

/// A VOPP instruction that asks leaves pending what continues its
/// request.
pub proof fn lemma_vopp_asks_well(m: Machine, word: u32)
    requires
        vopp_effects(m, word) is Ok,
    ensures
        asks_well(vopp_effects(m, word)->Ok_0.1),
{
}

} // verus!
