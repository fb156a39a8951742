//! The three-operand vector encoding VOP3: comparisons with a scalar
//! destination, the carry and borrow opcodes, and the general opcodes with
//! their `neg` and `abs` modifiers.
use vstd::prelude::*;
use crate::arith::{
    add_carry, asr32, bit_field, bit_field_signed, borrow_out, carry_out, extract_field,
    extract_field_signed, flag, flag_of, low16, low32, max_signed, median_signed, mul_high_signed,
    mul_low, shift_left, shift_left_wide, shift_right_signed, shift_right_wide, shl32, shl64, shr64,
    signed32, signed_max, signed_median, sub_borrow, wrap16, wrap32,
};
use crate::cpu::{asks_well, 
    operand, operands2, operands3, planned, sdst_write, wide_instruction, Machine, Width, CPU,
};
use crate::ieee::{modified, modify, Format};
use crate::protocol::{Effects, Fault, FloatOp, Pending, Request, Write};
use crate::state::{high_word, low_word, split_words, LANE_COUNT};
use crate::vector::{call, fcall, to_vector, vector_effects, vopc_value, Outcome};

verus! {

/// The fields of a VOP3 encoding.
pub struct Vop3Fields {
    pub vdst: usize,
    pub sdst: u32,
    pub abs: u64,
    pub clamp: u64,
    pub op: u32,
    pub c0: usize,
    pub c1: usize,
    pub c2: usize,
    pub omod: u64,
    pub neg: u64,
}

impl Vop3Fields {
    /// Every field within the range of its bits.
    pub open spec fn wf(self) -> bool {
        &&& self.vdst < 256
        &&& self.sdst < 128
        &&& self.abs < 8
        &&& self.neg < 8
        &&& self.c0 < 512
        &&& self.c1 < 512
        &&& self.c2 < 512
    }
}

/// The fields of a VOP3 encoding, by their bits.
pub open spec fn vop3_fields(instr: u64) -> Vop3Fields {
    Vop3Fields {
        vdst: (instr % 0x100) as usize,
        sdst: ((instr / 0x100) % 0x80) as u32,
        abs: (instr / 0x100) % 8,
        clamp: (instr / 0x8000) % 2,
        op: ((instr / 0x1_0000) % 0x400) as u32,
        c0: ((instr / 0x1_0000_0000) % 0x200) as usize,
        c1: ((instr / 0x200_0000_0000) % 0x200) as usize,
        c2: ((instr / 0x4_0000_0000_0000) % 0x200) as usize,
        omod: (instr / 0x800_0000_0000_0000) % 4,
        neg: instr / 0x2000_0000_0000_0000,
    }
}

/// Takes a VOP3 encoding apart.
pub fn decode_vop3(instr: u64) -> (r: Vop3Fields)
    ensures
        r == vop3_fields(instr),
        r.wf(),
{
    Vop3Fields {
        vdst: (instr % 0x100) as usize,
        sdst: ((instr / 0x100) % 0x80) as u32,
        abs: (instr / 0x100) % 8,
        clamp: (instr / 0x8000) % 2,
        op: ((instr / 0x1_0000) % 0x400) as u32,
        c0: ((instr / 0x1_0000_0000) % 0x200) as usize,
        c1: ((instr / 0x200_0000_0000) % 0x200) as usize,
        c2: ((instr / 0x4_0000_0000_0000) % 0x200) as usize,
        omod: (instr / 0x800_0000_0000_0000) % 4,
        neg: instr / 0x2000_0000_0000_0000,
    }
}

/// The opcodes that yield a value and a carry or borrow flag.
pub open spec fn is_vopsd(op: u32) -> bool {
    op == 764 || op == 288 || op == 289 || op == 766 || op == 768 || op == 769
}

/// The value and the flag of a carry or borrow opcode. Of the carry-in
/// operand `c` only the lowest bit counts.
pub open spec fn vopsd_value(op: u32, a: u32, b: u32, c: u32) -> (u32, bool) {
    if op == 288 {
        (wrap32(a + b + c % 2), carry_out(a, b, c % 2))
    } else if op == 289 {
        (wrap32(a - b - c % 2), borrow_out(a, b, c % 2))
    } else if op == 766 {
        (wrap32(a * b + c), false)
    } else if op == 768 {
        (wrap32(a + b), carry_out(a, b, 0))
    } else if op == 769 {
        (wrap32(a - b), b > a)
    } else {
        (0, false)
    }
}

/// Where the flag of a carry or borrow opcode goes: to the vector condition
/// code, nowhere for the null code, else to a scalar register.
pub open spec fn flag_write(sdst: u32, b: bool) -> Result<Write, Fault> {
    if sdst == 106 {
        Ok(Write::Vcc(flag_of(b)))
    } else if sdst == 124 {
        Ok(Write::Skip)
    } else if sdst <= 104 {
        Ok(Write::Sgpr(sdst as usize, flag_of(b)))
    } else {
        Err(Fault::InvalidOperandCode(sdst))
    }
}

/// The comparison opcodes whose operands are single precision numbers and
/// take the `neg` and `abs` modifiers.
pub open spec fn is_float_compare(op: u32) -> bool {
    op == 17 || op == 18 || op == 27 || op == 20 || op == 22 || op == 30 || op == 126 || op == 155
}

/// The opcodes that work on double precision numbers.
pub open spec fn is_double_op(op: u32) -> bool {
    op == 808 || op == 807 || op == 811 || op == 532
}

/// The opcodes that work on single precision numbers and take the `neg`
/// and `abs` modifiers.
pub open spec fn is_single_op(op: u32) -> bool {
    op == 257 || op == 259 || op == 299 || op == 260 || op == 264 || op == 272 || op == 531 || op
        == 537 || op == 540 || op == 551 || op == 567 || op == 796
}

/// The call that a double precision opcode makes.
pub open spec fn double_op(op: u32) -> FloatOp {
    if op == 532 {
        FloatOp::MulAddDouble
    } else if op == 808 {
        FloatOp::MulDouble
    } else if op == 811 {
        FloatOp::LdexpDouble
    } else {
        FloatOp::AddDouble
    }
}

/// What a single precision opcode yields from its modified operands.
pub open spec fn single_value(op: u32, a: u64, b: u64, c: u64, dst: u32, vcc: u32) -> Outcome {
    if op == 257 {
        Outcome::Value(if c != 0 { b as u32 } else { a as u32 })
    } else if op == 259 {
        Outcome::Call(fcall(FloatOp::Add, a, b, 0))
    } else if op == 260 {
        Outcome::Call(fcall(FloatOp::Sub, a, b, 0))
    } else if op == 264 {
        Outcome::Call(fcall(FloatOp::Mul, a, b, 0))
    } else if op == 272 {
        Outcome::Call(fcall(FloatOp::Max, a, b, 0))
    } else if op == 299 {
        Outcome::Call(fcall(FloatOp::MulAdd, a, b, dst as u64))
    } else if op == 531 {
        Outcome::Call(fcall(FloatOp::MulAdd, a, b, c))
    } else if op == 537 {
        Outcome::Call(fcall(FloatOp::Min3, a, b, c))
    } else if op == 540 {
        Outcome::Call(fcall(FloatOp::Max3, a, b, c))
    } else if op == 551 {
        Outcome::Call(fcall(FloatOp::Div, c, b, 0))
    } else if op == 567 {
        Outcome::Call(
            fcall(
                if vcc != 0 {
                    FloatOp::MulAddScaled
                } else {
                    FloatOp::MulAdd
                },
                a,
                b,
                c,
            ),
        )
    } else {
        Outcome::Call(fcall(FloatOp::Ldexp, a, b, 0))
    }
}

/// The result of an integer opcode. `None` for an opcode without semantics.
pub open spec fn integer_value(op: u32, a: u32, b: u32, c: u32) -> Option<u32> {
    let ha = (a % 0x1_0000) as u16;
    let hb = (b % 0x1_0000) as u16;
    if op == 522 || op == 523 {
        Some(wrap32(a * b + c))
    } else if op == 541 {
        Some(max_signed(max_signed(a, b), c))
    } else if op == 544 {
        Some(median_signed(a, b, c))
    } else if op == 529 {
        Some(bit_field_signed(a, b, c))
    } else if op == 814 {
        Some(wrap32((signed32(a) * signed32(b)) / 0x1_0000_0000))
    } else if op == 826 {
        Some(asr32(b, a))
    } else if op == 771 {
        Some(wrap16(ha + hb) as u32)
    } else if op == 772 {
        Some(wrap16(ha - hb) as u32)
    } else if op == 773 {
        Some(wrap16(ha * hb) as u32)
    } else if op == 824 {
        Some((hb << (ha % 16)) as u32)
    } else if op == 825 {
        Some((hb >> (ha % 16)) as u32)
    } else if op == 528 {
        Some(bit_field(a, b, c))
    } else if op == 576 {
        Some(a ^ b ^ c)
    } else if op == 582 {
        Some(wrap32(shl32(a, b) + c))
    } else if op == 597 {
        Some(wrap32(a + b + c))
    } else if op == 581 {
        Some(wrap32((a ^ b) + c))
    } else if op == 583 {
        Some(shl32(wrap32(a + b), c))
    } else if op == 598 {
        Some(shl32(a, b) | c)
    } else if op == 599 {
        Some((a & b) | c)
    } else if op == 785 {
        Some((hb * 0x1_0000 + ha) as u32)
    } else if op == 812 {
        Some(wrap32(a * b))
    } else {
        None
    }
}

/// The two register writes that store a 64-bit value in lane 0.
pub open spec fn pair_effects(vdst: usize, v: u64) -> Effects {
    Effects::of(
        Write::Vgpr(0, vdst, low_word(v)),
        Write::Vgpr(0, (vdst + 1) as usize, high_word(v)),
        Write::Skip,
        Write::Skip,
    )
}

/// The carry and borrow opcodes of VOP3.
pub open spec fn vopsd_effects(m: Machine, word: u32, f: Vop3Fields) -> Result<
    (Machine, Effects),
    Fault,
> {
    match operands3(m, f.c0, Width::Word, f.c1, Width::Word, f.c2, Width::Word) {
        Err(e) => Err(e),
        Ok((a, b, c, m1)) => if f.neg != 0 || f.omod != 0 || f.clamp != 0 {
            Err(Fault::UnsupportedModifier(word))
        } else if f.op == 766 && f.sdst != 124 {
            Err(Fault::UnsupportedInstruction(word))
        } else {
            let (v, flag) = vopsd_value(f.op, a as u32, b as u32, c as u32);
            match flag_write(f.sdst, flag) {
                Err(e) => Err(e),
                Ok(w) => Ok((m1, Effects::of(w, Write::Vgpr(0, f.vdst, v), Write::Skip, Write::Skip))),
            }
        },
    }
}

/// The comparison opcodes of VOP3: the outcome goes to the scalar
/// destination that the code in the `vdst` field names.
pub open spec fn vop3_compare_effects(m: Machine, word: u32, f: Vop3Fields) -> Result<
    (Machine, Effects),
    Fault,
> {
    match operands2(m, f.c0, Width::Word, f.c1, Width::Word) {
        Err(e) => Err(e),
        Ok((a, b, m1)) => {
            let outcome = if is_float_compare(f.op) {
                vopc_value(
                    f.op,
                    modified(Format::Single, a, 0, f.neg, f.abs) as u32,
                    modified(Format::Single, b, 1, f.neg, f.abs) as u32,
                )
            } else {
                vopc_value(f.op, a as u32, b as u32)
            };
            if !is_float_compare(f.op) && f.neg != 0 {
                Err(Fault::UnsupportedModifier(word))
            } else {
                match outcome {
                    None => Err(Fault::UnsupportedInstruction(word)),
                    Some(c) => match sdst_write(f.vdst as u32, flag_of(c)) {
                        Err(e) => Err(e),
                        Ok(w) => Ok((m1, Effects::of(w, Write::Skip, Write::Skip, Write::Skip))),
                    },
                }
            }
        },
    }
}

/// The 64-bit opcodes of VOP3: the two shifts and the double precision
/// arithmetic.
pub open spec fn vop3_wide_effects(m: Machine, word: u32, f: Vop3Fields) -> Result<
    (Machine, Effects),
    Fault,
> {
    if f.op == 828 || f.op == 829 {
        match operands3(m, f.c0, Width::Word, f.c1, Width::Wide, f.c2, Width::Wide) {
            Err(e) => Err(e),
            Ok((a, b, _, m1)) => if f.vdst < 255 {
                Ok(
                    (
                        m1,
                        pair_effects(
                            f.vdst,
                            if f.op == 828 {
                                shl64(b, a as u32)
                            } else {
                                shr64(b, a as u32)
                            },
                        ),
                    ),
                )
            } else {
                Err(Fault::InvalidOperandCode((256 + f.vdst) as u32))
            },
        }
    } else {
        match operands3(m, f.c0, Width::Wide, f.c1, Width::Wide, f.c2, Width::Wide) {
            Err(e) => Err(e),
            Ok((a, b, c, m1)) => if f.vdst < 255 {
                Ok(
                    (
                        m1,
                        Effects::asking(
                            Request::Float(
                                fcall(
                                    double_op(f.op),
                                    modified(Format::Double, a, 0, f.neg, f.abs),
                                    modified(Format::Double, b, 1, f.neg, f.abs),
                                    modified(Format::Double, c, 2, f.neg, f.abs),
                                ),
                            ),
                            Pending::VectorPair(f.vdst),
                        ),
                    ),
                )
            } else {
                Err(Fault::InvalidOperandCode((256 + f.vdst) as u32))
            },
        }
    }
}

/// The 32-bit opcodes of VOP3.
pub open spec fn vop3_word_effects(m: Machine, word: u32, instr: u64, f: Vop3Fields) -> Result<
    (Machine, Effects),
    Fault,
> {
    match operands3(m, f.c0, Width::Word, f.c1, Width::Word, f.c2, Width::Word) {
        Err(e) => Err(e),
        Ok((a, b, c, m1)) => if f.op == 865 {
            if b < LANE_COUNT {
                Ok(
                    (
                        m1,
                        Effects::of(
                            Write::Vgpr(b as usize, f.vdst, a as u32),
                            Write::Skip,
                            Write::Skip,
                            Write::Skip,
                        ),
                    ),
                )
            } else {
                Err(Fault::InvalidOperandCode(b as u32))
            }
        } else if f.op == 864 {
            if b < LANE_COUNT {
                match sdst_write(
                    f.vdst as u32,
                    m.vgpr[b as int][((instr / 0x1_0000_0000) % 0x100) as int],
                ) {
                    Err(e) => Err(e),
                    Ok(w) => Ok((m1, Effects::of(w, Write::Skip, Write::Skip, Write::Skip))),
                }
            } else {
                Err(Fault::InvalidOperandCode(b as u32))
            }
        } else if f.op == 306 {
            match operands2(m1, f.c0, Width::Half, f.c1, Width::Half) {
                Err(e) => Err(e),
                Ok((ha, hb, m2)) => Ok(
                    (
                        m2,
                        to_vector(
                            f.vdst,
                            Outcome::Call(
                                fcall(
                                    FloatOp::AddHalf,
                                    modified(Format::Half, ha, 0, f.neg, f.abs),
                                    modified(Format::Half, hb, 1, f.neg, f.abs),
                                    0,
                                ),
                            ),
                            None,
                        ),
                    ),
                ),
            }
        } else if is_single_op(f.op) {
            Ok(
                (
                    m1,
                    to_vector(
                        f.vdst,
                        single_value(
                            f.op,
                            modified(Format::Single, a, 0, f.neg, f.abs),
                            modified(Format::Single, b, 1, f.neg, f.abs),
                            modified(Format::Single, c, 2, f.neg, f.abs),
                            m.vgpr[0][f.vdst as int],
                            m.vcc,
                        ),
                        None,
                    ),
                ),
            )
        } else if f.neg != 0 {
            Err(Fault::UnsupportedModifier(word))
        } else {
            match integer_value(f.op, a as u32, b as u32, c as u32) {
                None => Err(Fault::UnsupportedInstruction(word)),
                Some(v) => Ok((m1, to_vector(f.vdst, Outcome::Value(v), None))),
            }
        },
    }
}

/// VOP3: the general three-operand encoding, two words long. Output
/// modulation and clamping are not modelled.
pub open spec fn vop3_effects(m: Machine, word: u32) -> Result<(Machine, Effects), Fault> {
    match wide_instruction(m) {
        Err(e) => Err(e),
        Ok((instr, m0)) => {
            let f = vop3_fields(instr);
            if is_vopsd(f.op) {
                vopsd_effects(m0, word, f)
            } else if f.omod != 0 || f.clamp != 0 {
                Err(Fault::UnsupportedModifier(word))
            } else if f.op <= 255 {
                vop3_compare_effects(m0, word, f)
            } else if f.op == 828 || f.op == 829 || is_double_op(f.op) {
                vop3_wide_effects(m0, word, f)
            } else {
                vop3_word_effects(m0, word, instr, f)
            }
        },
    }
}

fn vopsd_alu(op: u32, a: u32, b: u32, c: u32) -> (r: (u32, bool))
    ensures
        r == vopsd_value(op, a, b, c),
{
    if op == 288 {
        add_carry(a, b, c % 2)
    } else if op == 289 {
        sub_borrow(a, b, c % 2)
    } else if op == 766 {
        (mul_add_low(a, b, c), false)
    } else if op == 768 {
        add_carry(a, b, 0)
    } else if op == 769 {
        (a.wrapping_sub(b), b > a)
    } else {
        (0, false)
    }
}

/// The low word of `a * b + c`.
pub fn mul_add_low(a: u32, b: u32, c: u32) -> (r: u32)
    ensures
        r == wrap32(a * b + c),
{
    assert(a * b <= 0xffff_ffff * 0xffff_ffff) by (nonlinear_arith)
        requires
            a <= 0xffff_ffff,
            b <= 0xffff_ffff,
    ;
    let p: u64 = (a as u64) * (b as u64) + (c as u64);
    low32(p)
}

fn plan_flag(sdst: u32, b: bool) -> (r: Result<Write, Fault>)
    ensures
        r == flag_write(sdst, b),
        r is Ok ==> forall|m: Machine| crate::cpu::valid_write(m, r->Ok_0),
{
    if sdst == 106 {
        Ok(Write::Vcc(flag(b)))
    } else if sdst == 124 {
        Ok(Write::Skip)
    } else if sdst <= 104 {
        Ok(Write::Sgpr(sdst as usize, flag(b)))
    } else {
        Err(Fault::InvalidOperandCode(sdst))
    }
}

fn single_alu(op: u32, a: u64, b: u64, c: u64, dst: u32, vcc: u32) -> (r: Outcome)
    requires
        a < 0x1_0000_0000,
        b < 0x1_0000_0000,
    ensures
        r == single_value(op, a, b, c, dst, vcc),
{
    if op == 257 {
        Outcome::Value(if c != 0 { b as u32 } else { a as u32 })
    } else if op == 259 {
        Outcome::Call(call(FloatOp::Add, a, b, 0))
    } else if op == 260 {
        Outcome::Call(call(FloatOp::Sub, a, b, 0))
    } else if op == 264 {
        Outcome::Call(call(FloatOp::Mul, a, b, 0))
    } else if op == 272 {
        Outcome::Call(call(FloatOp::Max, a, b, 0))
    } else if op == 299 {
        Outcome::Call(call(FloatOp::MulAdd, a, b, dst as u64))
    } else if op == 531 {
        Outcome::Call(call(FloatOp::MulAdd, a, b, c))
    } else if op == 537 {
        Outcome::Call(call(FloatOp::Min3, a, b, c))
    } else if op == 540 {
        Outcome::Call(call(FloatOp::Max3, a, b, c))
    } else if op == 551 {
        Outcome::Call(call(FloatOp::Div, c, b, 0))
    } else if op == 567 {
        Outcome::Call(
            call(
                if vcc != 0 {
                    FloatOp::MulAddScaled
                } else {
                    FloatOp::MulAdd
                },
                a,
                b,
                c,
            ),
        )
    } else {
        Outcome::Call(call(FloatOp::Ldexp, a, b, 0))
    }
}

fn integer_alu(op: u32, a: u32, b: u32, c: u32) -> (r: Option<u32>)
    ensures
        r == integer_value(op, a, b, c),
{
    let ha: u16 = low16(a);
    let hb: u16 = low16(b);
    if op == 522 || op == 523 {
        Some(mul_add_low(a, b, c))
    } else if op == 541 {
        Some(signed_max(signed_max(a, b), c))
    } else if op == 544 {
        Some(signed_median(a, b, c))
    } else if op == 529 {
        Some(extract_field_signed(a, b, c))
    } else if op == 814 {
        Some(mul_high_signed(a, b))
    } else if op == 826 {
        Some(shift_right_signed(b, a))
    } else if op == 771 {
        Some(ha.wrapping_add(hb) as u32)
    } else if op == 772 {
        Some(ha.wrapping_sub(hb) as u32)
    } else if op == 773 {
        Some(ha.wrapping_mul(hb) as u32)
    } else if op == 824 {
        Some((hb << (ha % 16)) as u32)
    } else if op == 825 {
        Some((hb >> (ha % 16)) as u32)
    } else if op == 528 {
        Some(extract_field(a, b, c))
    } else if op == 576 {
        Some(a ^ b ^ c)
    } else if op == 582 {
        Some(shift_left(a, b).wrapping_add(c))
    } else if op == 597 {
        Some(low32(a as u64 + b as u64 + c as u64))
    } else if op == 581 {
        Some((a ^ b).wrapping_add(c))
    } else if op == 583 {
        Some(shift_left(a.wrapping_add(b), c))
    } else if op == 598 {
        Some(shift_left(a, b) | c)
    } else if op == 599 {
        Some((a & b) | c)
    } else if op == 785 {
        Some((hb as u32) * 0x1_0000 + ha as u32)
    } else if op == 812 {
        Some(mul_low(a, b))
    } else {
        None
    }
}

fn pair_writes(vdst: usize, v: u64) -> (r: Effects)
    requires
        vdst < 255,
    ensures
        r == pair_effects(vdst, v),
{
    let (lo, hi) = split_words(v);
    Effects::two(Write::Vgpr(0, vdst, lo), Write::Vgpr(0, vdst + 1, hi))
}

impl CPU {
    fn vopsd(&mut self, word: u32, f: Vop3Fields) -> (r: Result<Effects, Fault>)
        requires
            f.wf(),
        ensures
            planned(old(self)@, final(self)@, r, vopsd_effects(old(self)@, word, f)),
    {
        let a: u64 = self.resolve(f.c0, Width::Word)?;
        let b: u64 = self.resolve(f.c1, Width::Word)?;
        let c: u64 = self.resolve(f.c2, Width::Word)?;
        if f.neg != 0 || f.omod != 0 || f.clamp != 0 {
            Err(Fault::UnsupportedModifier(word))
        } else if f.op == 766 && f.sdst != 124 {
            Err(Fault::UnsupportedInstruction(word))
        } else {
            let (v, carry) = vopsd_alu(f.op, a as u32, b as u32, c as u32);
            let w = plan_flag(f.sdst, carry)?;
            Ok(Effects::two(w, Write::Vgpr(0, f.vdst, v)))
        }
    }

    fn vop3_compare(&mut self, word: u32, f: Vop3Fields) -> (r: Result<Effects, Fault>)
        requires
            f.wf(),
        ensures
            planned(old(self)@, final(self)@, r, vop3_compare_effects(old(self)@, word, f)),
    {
        let a: u64 = self.resolve(f.c0, Width::Word)?;
        let b: u64 = self.resolve(f.c1, Width::Word)?;
        let float: bool = f.op == 17 || f.op == 18 || f.op == 27 || f.op == 20 || f.op == 22 || f.op
            == 30 || f.op == 126 || f.op == 155;
        let c: bool = if float {
            let ma: u64 = modify(Format::Single, a, 0, f.neg, f.abs);
            let mb: u64 = modify(Format::Single, b, 1, f.neg, f.abs);
            self.vopc(ma as u32, mb as u32, f.op, word)?
        } else {
            if f.neg != 0 {
                return Err(Fault::UnsupportedModifier(word));
            }
            self.vopc(a as u32, b as u32, f.op, word)?
        };
        let w = Self::plan_sdst(f.vdst as u32, flag(c))?;
        Ok(Effects::one(w))
    }

    fn vop3_wide(&mut self, word: u32, f: Vop3Fields) -> (r: Result<Effects, Fault>)
        requires
            f.wf(),
        ensures
            planned(old(self)@, final(self)@, r, vop3_wide_effects(old(self)@, word, f)),
    {
        if f.op == 828 || f.op == 829 {
            let a: u64 = self.resolve(f.c0, Width::Word)?;
            let b: u64 = self.resolve(f.c1, Width::Wide)?;
            let _c: u64 = self.resolve(f.c2, Width::Wide)?;
            if f.vdst < 255 {
                Ok(
                    pair_writes(
                        f.vdst,
                        if f.op == 828 {
                            shift_left_wide(b, a as u32)
                        } else {
                            shift_right_wide(b, a as u32)
                        },
                    ),
                )
            } else {
                Err(Fault::InvalidOperandCode((256 + f.vdst) as u32))
            }
        } else {
            let a: u64 = self.resolve(f.c0, Width::Wide)?;
            let b: u64 = self.resolve(f.c1, Width::Wide)?;
            let c: u64 = self.resolve(f.c2, Width::Wide)?;
            if f.vdst < 255 {
                let op = if f.op == 532 {
                    FloatOp::MulAddDouble
                } else if f.op == 808 {
                    FloatOp::MulDouble
                } else if f.op == 811 {
                    FloatOp::LdexpDouble
                } else {
                    FloatOp::AddDouble
                };
                Ok(
                    Effects::ask(
                        Request::Float(
                            call(
                                op,
                                modify(Format::Double, a, 0, f.neg, f.abs),
                                modify(Format::Double, b, 1, f.neg, f.abs),
                                modify(Format::Double, c, 2, f.neg, f.abs),
                            ),
                        ),
                        Pending::VectorPair(f.vdst),
                    ),
                )
            } else {
                Err(Fault::InvalidOperandCode((256 + f.vdst) as u32))
            }
        }
    }

    fn vop3_word(&mut self, word: u32, instr: u64, f: Vop3Fields) -> (r: Result<Effects, Fault>)
        requires
            f.wf(),
        ensures
            planned(old(self)@, final(self)@, r, vop3_word_effects(old(self)@, word, instr, f)),
    {
        let a: u64 = self.resolve(f.c0, Width::Word)?;
        let b: u64 = self.resolve(f.c1, Width::Word)?;
        let c: u64 = self.resolve(f.c2, Width::Word)?;
        if f.op == 865 {
            if b < 32 {
                Ok(Effects::one(Write::Vgpr(b as usize, f.vdst, a as u32)))
            } else {
                Err(Fault::InvalidOperandCode(b as u32))
            }
        } else if f.op == 864 {
            if b < 32 {
                let v: u32 = self.vec_reg.read_lane(
                    b as usize,
                    ((instr / 0x1_0000_0000) % 0x100) as usize,
                );
                let w = Self::plan_sdst(f.vdst as u32, v)?;
                Ok(Effects::one(w))
            } else {
                Err(Fault::InvalidOperandCode(b as u32))
            }
        } else if f.op == 306 {
            let ha: u64 = self.resolve(f.c0, Width::Half)?;
            let hb: u64 = self.resolve(f.c1, Width::Half)?;
            Ok(
                vector_effects(
                    f.vdst,
                    Outcome::Call(
                        call(
                            FloatOp::AddHalf,
                            modify(Format::Half, ha, 0, f.neg, f.abs),
                            modify(Format::Half, hb, 1, f.neg, f.abs),
                            0,
                        ),
                    ),
                    None,
                ),
            )
        } else if f.op == 257 || f.op == 259 || f.op == 299 || f.op == 260 || f.op == 264 || f.op
            == 272 || f.op == 531 || f.op == 537 || f.op == 540 || f.op == 551 || f.op == 567
            || f.op == 796 {
            let o = single_alu(
                f.op,
                modify(Format::Single, a, 0, f.neg, f.abs),
                modify(Format::Single, b, 1, f.neg, f.abs),
                modify(Format::Single, c, 2, f.neg, f.abs),
                self.vec_reg.get(f.vdst),
                *self.vcc,
            );
            Ok(vector_effects(f.vdst, o, None))
        } else if f.neg != 0 {
            Err(Fault::UnsupportedModifier(word))
        } else {
            match integer_alu(f.op, a as u32, b as u32, c as u32) {
                None => Err(Fault::UnsupportedInstruction(word)),
                Some(v) => Ok(vector_effects(f.vdst, Outcome::Value(v), None)),
            }
        }
    }

    /// Plans a VOP3 instruction.
    pub fn vop3(&mut self, word: u32) -> (r: Result<Effects, Fault>)
        ensures
            planned(old(self)@, final(self)@, r, vop3_effects(old(self)@, word)),
    {
        let instr: u64 = self.u64_instr()?;
        let f = decode_vop3(instr);
        if f.op == 764 || f.op == 288 || f.op == 289 || f.op == 766 || f.op == 768 || f.op == 769 {
            self.vopsd(word, f)
        } else if f.omod != 0 || f.clamp != 0 {
            Err(Fault::UnsupportedModifier(word))
        } else if f.op <= 255 {
            self.vop3_compare(word, f)
        } else if f.op == 828 || f.op == 829 || f.op == 808 || f.op == 807 || f.op == 811 || f.op
            == 532 {
            self.vop3_wide(word, f)
        } else {
            self.vop3_word(word, instr, f)
        }
    }
}

/// A VOP3 instruction that asks leaves pending what continues its
/// request.
pub proof fn lemma_vop3_asks_well(m: Machine, word: u32)
    requires
        vop3_effects(m, word) is Ok,
    ensures
        asks_well(vop3_effects(m, word)->Ok_0.1),
{
}

} // verus!
