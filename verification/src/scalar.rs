//! The scalar ALU: the families SOP1, SOP2, SOPC, SOPK and SOPP.
use vstd::prelude::*;
use crate::arith::{
    add_carry, add_signed, as_signed16, as_signed32, asr32, bit_field, bit_field_signed_wide,
    bit_field_wide, carry_out, cls_of, clz_of, cls_i32, clz_i32_u32, extend16,
    extract_field, extract_field_signed_wide, extract_field_wide, fits_i32, flag, flag_of, mul_high_signed, mul_high_unsigned, mul_low, shift_left, shift_left_wide, shift_right,
    shift_right_signed, shl32, shl64, shr32, signed16, signed32, sub_signed, wrap32, wrap64,
};
use crate::cpu::{asks_well, operand, operands2, planned, sdst_write, Machine, Width, CPU};
use crate::protocol::{Effects, Fault, Write};
use crate::state::{high_word, low_word, split_words};

verus! {

/// The result of a SOP2 opcode on two words, and the condition code that it
/// sets if it sets one. `None` for an opcode without semantics.
pub open spec fn sop2_value(op: u32, a: u32, b: u32, scc: u32) -> Option<(u32, Option<bool>)> {
    if op == 0 {
        Some((wrap32(a + b), Some(carry_out(a, b, 0))))
    } else if op == 4 {
        Some((wrap32(a + b + scc), Some(carry_out(a, b, scc))))
    } else if op == 2 {
        Some((wrap32(signed32(a) + signed32(b)), Some(!fits_i32(signed32(a) + signed32(b)))))
    } else if op == 3 {
        Some((wrap32(signed32(a) - signed32(b)), Some(!fits_i32(signed32(a) - signed32(b)))))
    } else if op == 8 {
        Some((shl32(a, b), Some(shl32(a, b) != 0)))
    } else if op == 10 {
        Some((shr32(a, b), Some(shr32(a, b) != 0)))
    } else if op == 12 {
        Some((asr32(a, b), Some(asr32(a, b) != 0)))
    } else if op == 18 {
        Some((if signed32(a) < signed32(b) { a } else { b }, Some(signed32(a) < signed32(b))))
    } else if op == 19 {
        Some((if a < b { a } else { b }, Some(a < b)))
    } else if op == 20 {
        Some((if signed32(a) > signed32(b) { a } else { b }, Some(signed32(a) > signed32(b))))
    } else if op == 22 {
        Some((a & b, Some(a & b != 0)))
    } else if op == 24 {
        Some((a | b, Some(a | b != 0)))
    } else if op == 26 {
        Some((a ^ b, Some(a ^ b != 0)))
    } else if op == 34 {
        Some((a & !b, Some(a & !b != 0)))
    } else if op == 36 {
        Some((a | !b, Some(a | !b != 0)))
    } else if op == 38 {
        Some(
            (
                bit_field(a, b, (b / 0x1_0000) % 0x80),
                Some(bit_field(a, b, (b / 0x1_0000) % 0x80) != 0),
            ),
        )
    } else if op == 44 {
        Some((wrap32(a * b), None))
    } else if op == 45 {
        Some((((a * b) / 0x1_0000_0000) as u32, None))
    } else if op == 46 {
        Some((wrap32((signed32(a) * signed32(b)) / 0x1_0000_0000), None))
    } else if op == 48 {
        Some((if scc != 0 { a } else { b }, None))
    } else {
        None
    }
}

/// Whether a SOP2 opcode works on a 64-bit first operand.
pub open spec fn sop2_is_wide(op: u32) -> bool {
    op == 9 || op == 40 || op == 41
}

/// The result of a 64-bit SOP2 opcode.
pub open spec fn sop2_wide_value(op: u32, a: u64, b: u32) -> u64 {
    if op == 9 {
        shl64(a, b)
    } else if op == 40 {
        bit_field_wide(a, b, (b / 0x1_0000) % 0x80)
    } else {
        bit_field_signed_wide(a, b, (b / 0x1_0000) % 0x80)
    }
}

/// The change to the condition code, if there is one.
pub open spec fn scc_write(scc: Option<bool>) -> Write {
    match scc {
        Some(b) => Write::Scc(flag_of(b)),
        None => Write::Skip,
    }
}

/// SOP2: two sources, a scalar destination and, for most opcodes, the
/// condition code.
pub open spec fn sop2_effects(m: Machine, word: u32) -> Result<(Machine, Effects), Fault> {
    let c0 = (word % 0x100) as usize;
    let c1 = ((word / 0x100) % 0x100) as usize;
    let sdst = (word / 0x1_0000) % 0x80;
    let op = (word / 0x80_0000) % 0x100;
    if sop2_is_wide(op) {
        match operands2(m, c0, Width::Wide, c1, Width::Word) {
            Err(f) => Err(f),
            Ok((a, b, m1)) => {
                let v = sop2_wide_value(op, a, b as u32);
                if sdst < 104 {
                    Ok(
                        (
                            m1,
                            Effects::of(
                                Write::Sgpr(sdst as usize, low_word(v)),
                                Write::Sgpr((sdst + 1) as usize, high_word(v)),
                                Write::Scc(flag_of(v != 0)),
                                Write::Skip,
                            ),
                        ),
                    )
                } else {
                    Err(Fault::InvalidOperandCode(sdst))
                }
            },
        }
    } else {
        match operands2(m, c0, Width::Word, c1, Width::Word) {
            Err(f) => Err(f),
            Ok((a, b, m1)) => match sop2_value(op, a as u32, b as u32, m.scc) {
                None => Err(Fault::UnsupportedInstruction(word)),
                Some((v, scc)) => match sdst_write(sdst, v) {
                    Err(f) => Err(f),
                    Ok(w) => Ok((m1, Effects::of(w, scc_write(scc), Write::Skip, Write::Skip))),
                },
            },
        }
    }
}

/// The result of a SOP1 opcode that reads one word and writes one: the
/// value for the destination, the new execution mask and the new condition
/// code where the opcode sets them. `dst` is what the destination holds,
/// which only the bit-clearing opcode reads.
pub open spec fn sop1_value(op: u32, a: u32, dst: u32, exec_mask: u32) -> Option<
    (u32, Option<u32>, Option<bool>),
> {
    if op == 0 {
        Some((a, None, None))
    } else if op == 10 {
        Some((clz_of(a), None, None))
    } else if op == 12 {
        Some((cls_of(a), None, None))
    } else if op == 16 {
        Some((dst & !(1u32 << (a % 32)), None, None))
    } else if op == 30 {
        Some((!a, None, Some(!a != 0)))
    } else if op == 32 {
        Some((exec_mask, Some(a & exec_mask), Some(a & exec_mask != 0)))
    } else if op == 34 {
        Some((exec_mask, Some(a | exec_mask), Some(a | exec_mask != 0)))
    } else if op == 48 {
        Some((exec_mask, Some(a & !exec_mask), Some(a & !exec_mask != 0)))
    } else {
        None
    }
}

/// SOP1: one source and a scalar destination. The opcodes that combine the
/// source with the execution mask store the mask's previous value.
pub open spec fn sop1_effects(m: Machine, word: u32) -> Result<(Machine, Effects), Fault> {
    let src = (word % 0x100) as usize;
    let op = (word / 0x100) % 0x100;
    let sdst = (word / 0x1_0000) % 0x80;
    if op == 1 {
        match operand(m, src, Width::Wide) {
            Err(f) => Err(f),
            Ok((v, m1)) => if sdst < 104 {
                Ok(
                    (
                        m1,
                        Effects::of(
                            Write::Sgpr(sdst as usize, low_word(v)),
                            Write::Sgpr((sdst + 1) as usize, high_word(v)),
                            Write::Skip,
                            Write::Skip,
                        ),
                    ),
                )
            } else {
                Err(Fault::InvalidOperandCode(sdst))
            },
        }
    } else {
        match operand(m, src, Width::Word) {
            Err(f) => Err(f),
            Ok((a, m1)) => match (if op == 16 {
                operand(m1, sdst as usize, Width::Word)
            } else {
                Ok((0u64, m1))
            }) {
                Err(f) => Err(f),
                Ok((d, m2)) => match sop1_value(op, a as u32, d as u32, m.exec_mask) {
                    None => Err(Fault::UnsupportedInstruction(word)),
                    Some((v, mask, scc)) => match sdst_write(sdst, v) {
                        Err(f) => Err(f),
                        Ok(w) => Ok(
                            (
                                m2,
                                Effects::of(
                                    match mask {
                                        Some(e) => Write::Exec(e),
                                        None => Write::Skip,
                                    },
                                    scc_write(scc),
                                    w,
                                    Write::Skip,
                                ),
                            ),
                        ),
                    },
                },
            },
        }
    }
}

/// The outcome of a SOPC comparison. `None` for an opcode without semantics.
pub open spec fn sopc_value(op: u32, a: u32, b: u32) -> Option<bool> {
    if op == 2 {
        Some(signed32(a) > signed32(b))
    } else if op == 4 {
        Some(signed32(a) < signed32(b))
    } else if op == 6 {
        Some(a == b)
    } else if op == 8 {
        Some(a > b)
    } else if op == 9 {
        Some(a >= b)
    } else if op == 10 {
        Some(a < b)
    } else {
        None
    }
}

/// SOPC: a comparison of two sources that sets the condition code.
pub open spec fn sopc_effects(m: Machine, word: u32) -> Result<(Machine, Effects), Fault> {
    let c0 = (word % 0x100) as usize;
    let c1 = ((word / 0x100) % 0x100) as usize;
    let op = (word / 0x1_0000) % 0x80;
    match operands2(m, c0, Width::Word, c1, Width::Word) {
        Err(f) => Err(f),
        Ok((a, b, m1)) => match sopc_value(op, a as u32, b as u32) {
            None => Err(Fault::UnsupportedInstruction(word)),
            Some(c) => Ok(
                (m1, Effects::of(Write::Scc(flag_of(c)), Write::Skip, Write::Skip, Write::Skip)),
            ),
        },
    }
}

/// Whether a SOPP branch is taken. `None` for an opcode without semantics.
pub open spec fn branch_taken(op: u32, m: Machine) -> Option<bool> {
    if op == 32 {
        Some(true)
    } else if op == 33 {
        Some(m.scc == 0)
    } else if op == 34 {
        Some(m.scc == 1)
    } else if op == 35 {
        Some(m.vcc == 0)
    } else if op == 36 {
        Some(m.vcc != 0)
    } else if op == 37 {
        Some(m.exec_mask == 0)
    } else if op == 38 {
        Some(m.exec_mask != 0)
    } else {
        None
    }
}

/// SOPP: a branch that adds its signed 16-bit immediate to the program
/// counter, which already points behind the branch, if its condition holds.
pub open spec fn sopp_effects(m: Machine, word: u32) -> Result<(Machine, Effects), Fault> {
    let simm = (word % 0x1_0000) as u16;
    let op = (word / 0x1_0000) % 0x80;
    match branch_taken(op, m) {
        None => Err(Fault::UnsupportedInstruction(word)),
        Some(taken) => Ok(
            (
                if taken {
                    m.at(wrap64(m.pc + signed16(simm)))
                } else {
                    m
                },
                Effects::of(Write::Skip, Write::Skip, Write::Skip, Write::Skip),
            ),
        ),
    }
}

/// What a SOPK opcode does with the destination's value `a` and the 16-bit
/// immediate: the value it stores, if any, and the condition code it sets, if
/// any. `None` for an opcode without semantics.
pub open spec fn sopk_value(op: u32, a: u32, simm: u16) -> Option<(Option<u32>, Option<bool>)> {
    if op == 0 {
        Some((Some(wrap32(signed16(simm))), None))
    } else if op == 3 {
        Some((None, Some(signed32(a) == signed16(simm))))
    } else if op == 4 {
        Some((None, Some(signed32(a) != signed16(simm))))
    } else if op == 5 {
        Some((None, Some(signed32(a) > signed16(simm))))
    } else if op == 9 {
        Some((None, Some(a == simm)))
    } else if op == 15 {
        Some(
            (
                Some(wrap32(signed32(a) + signed16(simm))),
                Some(!fits_i32(signed32(a) + signed16(simm))),
            ),
        )
    } else if op == 16 {
        Some((Some(wrap32(a * wrap32(signed16(simm)))), None))
    } else {
        None
    }
}

/// SOPK: the destination register is also the first source; the second is
/// the 16-bit immediate.
pub open spec fn sopk_effects(m: Machine, word: u32) -> Result<(Machine, Effects), Fault> {
    let simm = (word % 0x1_0000) as u16;
    let sdst = (word / 0x1_0000) % 0x80;
    let op = (word / 0x80_0000) % 0x20;
    match operand(m, sdst as usize, Width::Word) {
        Err(f) => Err(f),
        Ok((a, m1)) => match sopk_value(op, a as u32, simm) {
            None => Err(Fault::UnsupportedInstruction(word)),
            Some((None, scc)) => Ok(
                (m1, Effects::of(scc_write(scc), Write::Skip, Write::Skip, Write::Skip)),
            ),
            Some((Some(v), scc)) => match sdst_write(sdst, v) {
                Err(f) => Err(f),
                Ok(w) => Ok((m1, Effects::of(w, scc_write(scc), Write::Skip, Write::Skip))),
            },
        },
    }
}

fn scc_change(scc: Option<bool>) -> (r: Write)
    ensures
        r == scc_write(scc),
{
    match scc {
        Some(b) => Write::Scc(flag(b)),
        None => Write::Skip,
    }
}

fn sop2_alu(op: u32, a: u32, b: u32, scc: u32) -> (r: Option<(u32, Option<bool>)>)
    ensures
        r == sop2_value(op, a, b, scc),
{
    if op == 0 {
        let (v, c) = add_carry(a, b, 0);
        Some((v, Some(c)))
    } else if op == 4 {
        let (v, c) = add_carry(a, b, scc);
        Some((v, Some(c)))
    } else if op == 2 {
        let (v, c) = add_signed(a, b);
        Some((v, Some(c)))
    } else if op == 3 {
        let (v, c) = sub_signed(a, b);
        Some((v, Some(c)))
    } else if op == 8 {
        let v = shift_left(a, b);
        Some((v, Some(v != 0)))
    } else if op == 10 {
        let v = shift_right(a, b);
        Some((v, Some(v != 0)))
    } else if op == 12 {
        let v = shift_right_signed(a, b);
        Some((v, Some(v != 0)))
    } else if op == 18 {
        let c = as_signed32(a) < as_signed32(b);
        Some((if c { a } else { b }, Some(c)))
    } else if op == 19 {
        let c = a < b;
        Some((if c { a } else { b }, Some(c)))
    } else if op == 20 {
        let c = as_signed32(a) > as_signed32(b);
        Some((if c { a } else { b }, Some(c)))
    } else if op == 22 {
        let v = a & b;
        Some((v, Some(v != 0)))
    } else if op == 24 {
        let v = a | b;
        Some((v, Some(v != 0)))
    } else if op == 26 {
        let v = a ^ b;
        Some((v, Some(v != 0)))
    } else if op == 34 {
        let v = a & !b;
        Some((v, Some(v != 0)))
    } else if op == 36 {
        let v = a | !b;
        Some((v, Some(v != 0)))
    } else if op == 38 {
        let v = extract_field(a, b, (b / 0x1_0000) % 0x80);
        Some((v, Some(v != 0)))
    } else if op == 44 {
        Some((mul_low(a, b), None))
    } else if op == 45 {
        Some((mul_high_unsigned(a, b), None))
    } else if op == 46 {
        Some((mul_high_signed(a, b), None))
    } else if op == 48 {
        Some((if scc != 0 { a } else { b }, None))
    } else {
        None
    }
}

fn sop2_wide_alu(op: u32, a: u64, b: u32) -> (r: u64)
    ensures
        r == sop2_wide_value(op, a, b),
{
    if op == 9 {
        shift_left_wide(a, b)
    } else if op == 40 {
        extract_field_wide(a, b, (b / 0x1_0000) % 0x80)
    } else {
        extract_field_signed_wide(a, b, (b / 0x1_0000) % 0x80)
    }
}

fn sop1_alu(op: u32, a: u32, dst: u32, exec_mask: u32) -> (r: Option<
    (u32, Option<u32>, Option<bool>),
>)
    ensures
        r == sop1_value(op, a, dst, exec_mask),
{
    if op == 0 {
        Some((a, None, None))
    } else if op == 10 {
        Some((clz_i32_u32(a), None, None))
    } else if op == 12 {
        Some((cls_i32(a), None, None))
    } else if op == 16 {
        Some((dst & !(1u32 << (a % 32)), None, None))
    } else if op == 30 {
        Some((!a, None, Some(!a != 0)))
    } else if op == 32 {
        let e = a & exec_mask;
        Some((exec_mask, Some(e), Some(e != 0)))
    } else if op == 34 {
        let e = a | exec_mask;
        Some((exec_mask, Some(e), Some(e != 0)))
    } else if op == 48 {
        let e = a & !exec_mask;
        Some((exec_mask, Some(e), Some(e != 0)))
    } else {
        None
    }
}

fn sopc_alu(op: u32, a: u32, b: u32) -> (r: Option<bool>)
    ensures
        r == sopc_value(op, a, b),
{
    if op == 2 {
        Some(as_signed32(a) > as_signed32(b))
    } else if op == 4 {
        Some(as_signed32(a) < as_signed32(b))
    } else if op == 6 {
        Some(a == b)
    } else if op == 8 {
        Some(a > b)
    } else if op == 9 {
        Some(a >= b)
    } else if op == 10 {
        Some(a < b)
    } else {
        None
    }
}

fn sopk_alu(op: u32, a: u32, simm: u16) -> (r: Option<(Option<u32>, Option<bool>)>)
    ensures
        r == sopk_value(op, a, simm),
{
    if op == 0 {
        Some((Some(extend16(simm)), None))
    } else if op == 3 {
        Some((None, Some(as_signed32(a) == as_signed16(simm))))
    } else if op == 4 {
        Some((None, Some(as_signed32(a) != as_signed16(simm))))
    } else if op == 5 {
        Some((None, Some(as_signed32(a) > as_signed16(simm))))
    } else if op == 9 {
        Some((None, Some(a == simm as u32)))
    } else if op == 15 {
        let (v, c) = add_signed(a, extend16(simm));
        Some((Some(v), Some(c)))
    } else if op == 16 {
        Some((Some(mul_low(a, extend16(simm))), None))
    } else {
        None
    }
}

impl CPU {
    /// Plans a SOP2 instruction.
    pub fn sop2(&mut self, word: u32) -> (r: Result<Effects, Fault>)
        ensures
            planned(old(self)@, final(self)@, r, sop2_effects(old(self)@, word)),
    {
        let c0: usize = (word % 0x100) as usize;
        let c1: usize = ((word / 0x100) % 0x100) as usize;
        let sdst: u32 = (word / 0x1_0000) % 0x80;
        let op: u32 = (word / 0x80_0000) % 0x100;
        let scc: u32 = self.scc;
        if op == 9 || op == 40 || op == 41 {
            let a: u64 = self.resolve(c0, Width::Wide)?;
            let b: u64 = self.resolve(c1, Width::Word)?;
            let v: u64 = sop2_wide_alu(op, a, b as u32);
            if sdst < 104 {
                let (lo, hi) = split_words(v);
                Ok(
                    Effects::three(
                        Write::Sgpr(sdst as usize, lo),
                        Write::Sgpr((sdst + 1) as usize, hi),
                        Write::Scc(flag(v != 0)),
                    ),
                )
            } else {
                Err(Fault::InvalidOperandCode(sdst))
            }
        } else {
            let a: u64 = self.resolve(c0, Width::Word)?;
            let b: u64 = self.resolve(c1, Width::Word)?;
            match sop2_alu(op, a as u32, b as u32, scc) {
                None => Err(Fault::UnsupportedInstruction(word)),
                Some((v, c)) => {
                    let w = Self::plan_sdst(sdst, v)?;
                    Ok(Effects::two(w, scc_change(c)))
                },
            }
        }
    }

    /// Plans a SOP1 instruction.
    pub fn sop1(&mut self, word: u32) -> (r: Result<Effects, Fault>)
        ensures
            planned(old(self)@, final(self)@, r, sop1_effects(old(self)@, word)),
    {
        let src: usize = (word % 0x100) as usize;
        let op: u32 = (word / 0x100) % 0x100;
        let sdst: u32 = (word / 0x1_0000) % 0x80;
        let exec_mask: u32 = self.exec_mask;
        if op == 1 {
            let v: u64 = self.resolve(src, Width::Wide)?;
            if sdst < 104 {
                let (lo, hi) = split_words(v);
                Ok(Effects::two(Write::Sgpr(sdst as usize, lo), Write::Sgpr((sdst + 1) as usize, hi)))
            } else {
                Err(Fault::InvalidOperandCode(sdst))
            }
        } else {
            let a: u64 = self.resolve(src, Width::Word)?;
            let d: u64 = if op == 16 {
                self.resolve(sdst as usize, Width::Word)?
            } else {
                0
            };
            match sop1_alu(op, a as u32, d as u32, exec_mask) {
                None => Err(Fault::UnsupportedInstruction(word)),
                Some((v, mask, c)) => {
                    let w = Self::plan_sdst(sdst, v)?;
                    let e = match mask {
                        Some(e) => Write::Exec(e),
                        None => Write::Skip,
                    };
                    Ok(Effects::three(e, scc_change(c), w))
                },
            }
        }
    }

    /// Plans a SOPC instruction.
    pub fn sopc(&mut self, word: u32) -> (r: Result<Effects, Fault>)
        ensures
            planned(old(self)@, final(self)@, r, sopc_effects(old(self)@, word)),
    {
        let c0: usize = (word % 0x100) as usize;
        let c1: usize = ((word / 0x100) % 0x100) as usize;
        let op: u32 = (word / 0x1_0000) % 0x80;
        let a: u64 = self.resolve(c0, Width::Word)?;
        let b: u64 = self.resolve(c1, Width::Word)?;
        match sopc_alu(op, a as u32, b as u32) {
            None => Err(Fault::UnsupportedInstruction(word)),
            Some(c) => Ok(Effects::one(Write::Scc(flag(c)))),
        }
    }

    /// Plans a SOPP instruction: takes the branch or leaves the program
    /// counter where it is.
    pub fn sopp(&mut self, word: u32) -> (r: Result<Effects, Fault>)
        ensures
            planned(old(self)@, final(self)@, r, sopp_effects(old(self)@, word)),
    {
        let simm: u16 = (word % 0x1_0000) as u16;
        let op: u32 = (word / 0x1_0000) % 0x80;
        let taken: bool = if op == 32 {
            true
        } else if op == 33 {
            self.scc == 0
        } else if op == 34 {
            self.scc == 1
        } else if op == 35 {
            *self.vcc == 0
        } else if op == 36 {
            *self.vcc != 0
        } else if op == 37 {
            self.exec_mask == 0
        } else if op == 38 {
            self.exec_mask != 0
        } else {
            return Err(Fault::UnsupportedInstruction(word));
        };
        if taken {
            self.pc = self.pc.wrapping_add_signed(as_signed16(simm));
        }
        Ok(Effects::none())
    }

    /// Plans a SOPK instruction.
    pub fn sopk(&mut self, word: u32) -> (r: Result<Effects, Fault>)
        ensures
            planned(old(self)@, final(self)@, r, sopk_effects(old(self)@, word)),
    {
        let simm: u16 = (word % 0x1_0000) as u16;
        let sdst: u32 = (word / 0x1_0000) % 0x80;
        let op: u32 = (word / 0x80_0000) % 0x20;
        let a: u64 = self.resolve(sdst as usize, Width::Word)?;
        match sopk_alu(op, a as u32, simm) {
            None => Err(Fault::UnsupportedInstruction(word)),
            Some((None, c)) => Ok(Effects::one(scc_change(c))),
            Some((Some(v), c)) => {
                let w = Self::plan_sdst(sdst, v)?;
                Ok(Effects::two(w, scc_change(c)))
            },
        }
    }
}

/// A SOP1 instruction that asks leaves pending what continues its
/// request.
pub proof fn lemma_sop1_asks_well(m: Machine, word: u32)
    requires
        sop1_effects(m, word) is Ok,
    ensures
        asks_well(sop1_effects(m, word)->Ok_0.1),
{
}

/// A SOP2 instruction that asks leaves pending what continues its
/// request.
pub proof fn lemma_sop2_asks_well(m: Machine, word: u32)
    requires
        sop2_effects(m, word) is Ok,
    ensures
        asks_well(sop2_effects(m, word)->Ok_0.1),
{
}

/// A SOPC instruction that asks leaves pending what continues its
/// request.
pub proof fn lemma_sopc_asks_well(m: Machine, word: u32)
    requires
        sopc_effects(m, word) is Ok,
    ensures
        asks_well(sopc_effects(m, word)->Ok_0.1),
{
}

/// A SOPK instruction that asks leaves pending what continues its
/// request.
pub proof fn lemma_sopk_asks_well(m: Machine, word: u32)
    requires
        sopk_effects(m, word) is Ok,
    ensures
        asks_well(sopk_effects(m, word)->Ok_0.1),
{
}

/// A SOPP instruction that asks leaves pending what continues its
/// request.
pub proof fn lemma_sopp_asks_well(m: Machine, word: u32)
    requires
        sopp_effects(m, word) is Ok,
    ensures
        asks_well(sopp_effects(m, word)->Ok_0.1),
{
}

} // verus!
