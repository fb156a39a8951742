//! The machine state of one wavefront, the operand resolver and the commit
//! path.
use vstd::prelude::*;
use crate::protocol::{expects, in_range, Effects, Fault, Next, Pending, Write};
use crate::state::{
    is_vector_file, lane_bit, pair_of, with_lane_slot, Register, Assign, LANE_COUNT, SGPR_COUNT, VCC,
    VGPR, VGPR_COUNT,
};

verus! {

/// The operand code that stands for "no source".
pub const NULL_SRC: u32 = 124;

/// The width at which an operand is read.
#[derive(Clone, Copy, Debug, PartialEq, Eq, Structural)]
pub enum Width {
    Half,
    Word,
    Wide,
}

/// The state of a wavefront as a mathematical value.
pub struct Machine {
    /// Index of the next program word.
    pub pc: u64,
    /// The scalar registers.
    pub sgpr: Seq<u32>,
    /// The vector registers, by lane.
    pub vgpr: Seq<Seq<u32>>,
    pub scc: u32,
    pub vcc: u32,
    /// The execution mask.
    pub exec_mask: u32,
    /// The local scratch memory.
    pub lds: Seq<u8>,
    pub prg: Seq<u32>,
    /// What the machine waits for.
    pub pending: Pending,
}

impl Machine {
    /// Register files of the right shape.
    pub open spec fn wf(self) -> bool {
        &&& self.sgpr.len() == SGPR_COUNT
        &&& is_vector_file(self.vgpr)
    }

    /// The machine with its program counter at `pc`.
    pub open spec fn at(self, pc: u64) -> Machine {
        Machine { pc, ..self }
    }
}

/// One wavefront. The caller seeds the registers before a program runs and
/// reads them afterwards. The scratch memory is the caller's too: it moves in
/// with `new` and is taken back from the field `lds`, so that the waves of a
/// work group can use it one after the other.
pub struct CPU {
    /// Index of the next program word.
    pub pc: u64,
    pub scalar_reg: [u32; SGPR_COUNT],
    pub vec_reg: VGPR,
    /// The scalar condition code: 0 or 1.
    pub scc: u32,
    pub vcc: VCC,
    /// The execution mask.
    pub exec_mask: u32,
    pub lds: Vec<u8>,
    pub prg: Vec<u32>,
    pub pending: Pending,
}

impl View for CPU {
    type V = Machine;

    open spec fn view(&self) -> Machine {
        Machine {
            pc: self.pc,
            sgpr: self.scalar_reg@,
            vgpr: self.vec_reg@,
            scc: self.scc,
            vcc: self.vcc@,
            exec_mask: self.exec_mask,
            lds: self.lds@,
            prg: self.prg@,
            pending: self.pending,
        }
    }
}

/// A value cut to the width at which it is read.
pub open spec fn narrowed(width: Width, v: u32) -> u64 {
    match width {
        Width::Half => (v % 0x1_0000) as u64,
        _ => v as u64,
    }
}

/// Whether a value can be held at a width.
pub open spec fn fits(width: Width, v: u64) -> bool {
    match width {
        Width::Half => v < 0x1_0000,
        Width::Word => v < 0x1_0000_0000,
        Width::Wide => true,
    }
}

/// The inline constant `-(code - 192)` in two's complement at a width.
pub open spec fn inline_negative(width: Width, code: usize) -> u64 {
    match width {
        Width::Half => (0x1_0000 - (code - 192)) as u64,
        Width::Word => (0x1_0000_0000 - (code - 192)) as u64,
        Width::Wide => (0x1_0000_0000_0000_0000 - (code - 192)) as u64,
    }
}

/// The inline floating-point constants 0.5, -0.5, 1, -1, 2, -2, 4, -4 for
/// the codes 240 to 247, in the format of the width: an odd code has the
/// sign bit set, and each step of two doubles the magnitude.
pub open spec fn inline_float(width: Width, code: usize) -> u64 {
    let step = (code - 240) / 2;
    let negative = (code - 240) % 2 == 1;
    match width {
        Width::Half => (0x3800 + step * 0x400 + if negative { 0x8000int } else { 0 }) as u64,
        Width::Word => (0x3f00_0000 + step * 0x80_0000 + if negative {
            0x8000_0000int
        } else {
            0
        }) as u64,
        Width::Wide => (0x3fe0_0000_0000_0000 + step * 0x10_0000_0000_0000 + if negative {
            0x8000_0000_0000_0000int
        } else {
            0
        }) as u64,
    }
}

/// The special sources: the condition code, the execution mask, zero, the
/// null source, and the literal that follows the instruction. Reading the
/// literal advances the program counter.
pub open spec fn common_source(m: Machine, code: u32) -> Result<(u32, Machine), Fault> {
    if code == 106 {
        Ok((m.vcc, m))
    } else if code == 126 {
        Ok((m.exec_mask, m))
    } else if code == 128 {
        Ok((0u32, m))
    } else if code == 124 {
        Ok((NULL_SRC, m))
    } else if code == 255 {
        literal(m)
    } else {
        Err(Fault::InvalidOperandCode(code))
    }
}

/// The program word at the program counter, which then moves on.
pub open spec fn literal(m: Machine) -> Result<(u32, Machine), Fault> {
    if m.pc < m.prg.len() {
        Ok((m.prg[m.pc as int], m.at((m.pc + 1) as u64)))
    } else {
        Err(Fault::ProgramEnd)
    }
}

/// The two words of a 64-bit encoding, the first of which was fetched
/// already: the word before the program counter is the low half, the word at
/// it the high half.
pub open spec fn wide_instruction(m: Machine) -> Result<(u64, Machine), Fault> {
    if 1 <= m.pc < m.prg.len() {
        Ok((pair_of(m.prg, m.pc - 1), m.at((m.pc + 1) as u64)))
    } else {
        Err(Fault::ProgramEnd)
    }
}

/// The value of an operand code at a width, and the machine after the read.
pub open spec fn operand(m: Machine, code: usize, width: Width) -> Result<(u64, Machine), Fault> {
    if code <= 104 {
        match width {
            Width::Wide => if code < 104 {
                Ok((pair_of(m.sgpr, code as int), m))
            } else {
                Err(Fault::InvalidOperandCode(code as u32))
            },
            _ => Ok((narrowed(width, m.sgpr[code as int]), m)),
        }
    } else if 256 <= code <= 511 {
        match width {
            Width::Wide => if code < 511 {
                Ok((pair_of(m.vgpr[0], code - 256), m))
            } else {
                Err(Fault::InvalidOperandCode(code as u32))
            },
            _ => Ok((narrowed(width, m.vgpr[0][code - 256]), m)),
        }
    } else if 129 <= code <= 192 {
        Ok(((code - 128) as u64, m))
    } else if 193 <= code <= 208 {
        Ok((inline_negative(width, code), m))
    } else if 240 <= code <= 247 {
        Ok((inline_float(width, code), m))
    } else if code > 0xffff_ffff {
        Err(Fault::InvalidOperandCode(0xffff_ffff))
    } else {
        match common_source(m, code as u32) {
            Ok((v, m1)) => Ok((narrowed(width, v), m1)),
            Err(f) => Err(f),
        }
    }
}

/// Two operands, read one after the other.
pub open spec fn operands2(m: Machine, c0: usize, w0: Width, c1: usize, w1: Width) -> Result<
    (u64, u64, Machine),
    Fault,
> {
    match operand(m, c0, w0) {
        Err(f) => Err(f),
        Ok((a, m1)) => match operand(m1, c1, w1) {
            Err(f) => Err(f),
            Ok((b, m2)) => Ok((a, b, m2)),
        },
    }
}

/// Three operands, read one after the other.
pub open spec fn operands3(
    m: Machine,
    c0: usize,
    w0: Width,
    c1: usize,
    w1: Width,
    c2: usize,
    w2: Width,
) -> Result<(u64, u64, u64, Machine), Fault> {
    match operands2(m, c0, w0, c1, w1) {
        Err(f) => Err(f),
        Ok((a, b, m1)) => match operand(m1, c2, w2) {
            Err(f) => Err(f),
            Ok((c, m2)) => Ok((a, b, c, m2)),
        },
    }
}

/// The change that stores `val` at a scalar destination code.
pub open spec fn sdst_write(code: u32, val: u32) -> Result<Write, Fault> {
    if code <= 104 {
        Ok(Write::Sgpr(code as usize, val))
    } else if code == 106 {
        Ok(Write::Vcc(val))
    } else if code == 126 {
        Ok(Write::Exec(val))
    } else {
        Err(Fault::InvalidOperandCode(code))
    }
}

/// The byte `k` of a word, least significant first.
pub open spec fn byte_of(word: u32, k: int) -> u8 {
    if k == 0 {
        (word % 0x100) as u8
    } else if k == 1 {
        ((word / 0x100) % 0x100) as u8
    } else if k == 2 {
        ((word / 0x1_0000) % 0x100) as u8
    } else {
        (word / 0x100_0000) as u8
    }
}

/// The word whose bytes, least significant first, start at `addr`.
pub open spec fn word_at(bytes: Seq<u8>, addr: int) -> u32 {
    (bytes[addr] + bytes[addr + 1] * 0x100 + bytes[addr + 2] * 0x1_0000 + bytes[addr + 3]
        * 0x100_0000) as u32
}

/// The scratch memory, extended by `addr + 5` zero bytes if a word stored at
/// `addr` would reach its end.
pub open spec fn grown(lds: Seq<u8>, addr: int) -> Seq<u8> {
    if addr + 4 >= lds.len() {
        lds + Seq::new((addr + 5) as nat, |i: int| 0u8)
    } else {
        lds
    }
}

/// The scratch memory after a word was stored at `addr`.
pub open spec fn with_word(lds: Seq<u8>, addr: int, word: u32) -> Seq<u8> {
    grown(lds, addr).update(addr, byte_of(word, 0)).update(addr + 1, byte_of(word, 1)).update(
        addr + 2,
        byte_of(word, 2),
    ).update(addr + 3, byte_of(word, 3))
}

/// A word stored in the scratch memory is read back from the same address;
/// the store never shortens the memory, makes it long enough for the word,
/// and leaves every other byte that was there as it was.
pub proof fn lemma_store_then_load(lds: Seq<u8>, addr: int, word: u32)
    requires
        0 <= addr,
    ensures
        word_at(with_word(lds, addr, word), addr) == word,
        with_word(lds, addr, word).len() >= lds.len(),
        with_word(lds, addr, word).len() > addr + 4,
        forall|i: int|
            0 <= i < lds.len() && !(addr <= i < addr + 4) ==> with_word(lds, addr, word)[i]
                == lds[i],
{
}

/// Whether a change can be made to a machine.
pub open spec fn valid_write(m: Machine, w: Write) -> bool {
    match w {
        Write::Sgpr(i, _) => i < SGPR_COUNT,
        Write::Vgpr(l, i, _) => l < LANE_COUNT && i < VGPR_COUNT,
        Write::Scratch(a, _) => m.lds.len() + a + 5 <= usize::MAX,
        _ => true,
    }
}

/// The machine after one change.
pub open spec fn apply_write(m: Machine, w: Write) -> Machine {
    match w {
        Write::Skip => m,
        Write::Sgpr(i, v) => Machine { sgpr: m.sgpr.update(i as int, v), ..m },
        Write::Vgpr(l, i, v) => Machine { vgpr: with_lane_slot(m.vgpr, l as int, i as int, v), ..m },
        Write::Scc(v) => Machine { scc: v, ..m },
        Write::Vcc(v) => Machine { vcc: lane_bit(v), ..m },
        Write::Exec(v) => Machine { exec_mask: v, ..m },
        Write::Scratch(a, v) => Machine { lds: with_word(m.lds, a as int, v), ..m },
    }
}

/// Whether the changes of an instruction can be made, one after the other.
pub open spec fn valid_effects(m: Machine, fx: Effects) -> bool {
    let m1 = apply_write(m, fx.w0);
    let m2 = apply_write(m1, fx.w1);
    let m3 = apply_write(m2, fx.w2);
    &&& valid_write(m, fx.w0)
    &&& valid_write(m1, fx.w1)
    &&& valid_write(m2, fx.w2)
    &&& valid_write(m3, fx.w3)
}

/// The machine after the changes of an instruction.
pub open spec fn apply(m: Machine, fx: Effects) -> Machine {
    let m4 = apply_write(apply_write(apply_write(apply_write(m, fx.w0), fx.w1), fx.w2), fx.w3);
    match fx.next {
        Next::Continue => m4,
        Next::Ask(_, pending) => Machine { pending, ..m4 },
    }
}

/// Whether effects that end with a request leave pending what continues
/// that request.
pub open spec fn asks_well(fx: Effects) -> bool {
    match fx.next {
        Next::Continue => true,
        Next::Ask(request, pending) => in_range(pending) && expects(pending, request),
    }
}

/// What an operand read promises: on success the value and a machine that
/// differs at most in its program counter, on failure the fault.
pub open spec fn read_as(
    before: Machine,
    after: Machine,
    r: Result<u64, Fault>,
    expected: Result<(u64, Machine), Fault>,
) -> bool {
    match expected {
        Ok((v, m)) => r == Ok::<u64, Fault>(v) && after == m,
        Err(f) => r == Err::<u64, Fault>(f) && after == before,
    }
}

/// What a family handler promises: on success the changes to make and a
/// machine that differs at most in its program counter; on failure the
/// fault, with nothing but the program counter touched.
pub open spec fn planned(
    before: Machine,
    after: Machine,
    r: Result<Effects, Fault>,
    expected: Result<(Machine, Effects), Fault>,
) -> bool {
    match expected {
        Ok((m, fx)) => r == Ok::<Effects, Fault>(fx) && after == m && valid_effects(m, fx),
        Err(f) => r == Err::<Effects, Fault>(f) && after == before.at(after.pc),
    }
}

/// Resolution of an operand code to a value of one width.
pub trait ALUSrc<T> {
    /// The value that the code stands for, and the machine after the read.
    spec fn source(&self, code: usize) -> Result<(T, Machine), Fault>;

    /// The machine that the resolver works on.
    spec fn machine(&self) -> Machine;

    /// Reads the operand. A literal operand advances the program counter;
    /// nothing else changes.
    fn val(&mut self, code: usize) -> (r: Result<T, Fault>)
        ensures
            match ALUSrc::<T>::source(old(self), code) {
                Ok((v, m)) => r == Ok::<T, Fault>(v) && ALUSrc::<T>::machine(final(self)) == m,
                Err(f) => r == Err::<T, Fault>(f) && ALUSrc::<T>::machine(final(self))
                    == ALUSrc::<T>::machine(old(self)),
            },
    ;
}

impl CPU {
    /// A machine with all registers and flags zero, on the given scratch
    /// memory, with an empty program.
    pub fn new(lds: Vec<u8>) -> (r: CPU)
        ensures
            r@.pc == 0,
            r@.scc == 0,
            r@.vcc == 0,
            r@.exec_mask == 0,
            r@.lds == lds@,
            r@.prg == Seq::<u32>::empty(),
            r@.pending == Pending::Idle,
            r@.wf(),
            forall|i: int| 0 <= i < SGPR_COUNT ==> r@.sgpr[i] == 0,
            forall|l: int, i: int|
                0 <= l < LANE_COUNT && 0 <= i < VGPR_COUNT ==> #[trigger] r@.vgpr[l][i] == 0,
    {
        CPU {
            pc: 0,
            scc: 0,
            vcc: VCC::from(0),
            exec_mask: 0,
            lds,
            scalar_reg: [0u32; SGPR_COUNT],
            vec_reg: VGPR::new(),
            prg: Vec::new(),
            pending: Pending::Idle,
        }
    }

    /// The register files of a machine always have their shape.
    pub proof fn lemma_wf(&self)
        ensures
            self@.wf(),
    {
    }

    /// Reads the literal word at the program counter and steps over it.
    pub fn simm(&mut self) -> (r: Result<u32, Fault>)
        ensures
            match literal(old(self)@) {
                Ok((v, m)) => r == Ok::<u32, Fault>(v) && final(self)@ == m,
                Err(f) => r == Err::<u32, Fault>(f) && final(self)@ == old(self)@,
            },
    {
        if self.pc >= self.prg.len() as u64 {
            return Err(Fault::ProgramEnd);
        }
        let word: u32 = self.prg[self.pc as usize];
        self.pc = self.pc + 1;
        Ok(word)
    }

    /// Reads the second word of a 64-bit encoding and joins it to the first.
    pub fn u64_instr(&mut self) -> (r: Result<u64, Fault>)
        ensures
            match wide_instruction(old(self)@) {
                Ok((v, m)) => r == Ok::<u64, Fault>(v) && final(self)@ == m,
                Err(f) => r == Err::<u64, Fault>(f) && final(self)@ == old(self)@,
            },
    {
        if self.pc < 1 || self.pc >= self.prg.len() as u64 {
            return Err(Fault::ProgramEnd);
        }
        let at: usize = self.pc as usize;
        let instr: u64 = crate::state::join_words(self.prg[at - 1], self.prg[at]);
        self.pc = self.pc + 1;
        Ok(instr)
    }

    /// Resolves one of the special source codes.
    pub fn _common_srcs(&mut self, code: u32) -> (r: Result<u32, Fault>)
        ensures
            match common_source(old(self)@, code) {
                Ok((v, m)) => r == Ok::<u32, Fault>(v) && final(self)@ == m,
                Err(f) => r == Err::<u32, Fault>(f) && final(self)@ == old(self)@,
            },
    {
        if code == 106 {
            Ok(*self.vcc)
        } else if code == 126 {
            Ok(self.exec_mask)
        } else if code == 128 {
            Ok(0)
        } else if code == 124 {
            Ok(NULL_SRC)
        } else if code == 255 {
            self.simm()
        } else {
            Err(Fault::InvalidOperandCode(code))
        }
    }

    /// Resolves an operand code at a width.
    pub fn resolve(&mut self, code: usize, width: Width) -> (r: Result<u64, Fault>)
        ensures
            read_as(old(self)@, final(self)@, r, operand(old(self)@, code, width)),
            r is Ok ==> fits(width, r->Ok_0),
            final(self)@ == old(self)@.at(final(self)@.pc),
    {
        if code <= 104 {
            match width {
                Width::Wide => if code < 104 {
                    Ok(self.scalar_reg.read64(code))
                } else {
                    Err(Fault::InvalidOperandCode(code as u32))
                },
                Width::Half => Ok((self.scalar_reg[code] % 0x1_0000) as u64),
                Width::Word => Ok(self.scalar_reg[code] as u64),
            }
        } else if 256 <= code && code <= 511 {
            match width {
                Width::Wide => if code < 511 {
                    Ok(self.vec_reg.read64(code - 256))
                } else {
                    Err(Fault::InvalidOperandCode(code as u32))
                },
                Width::Half => Ok((self.vec_reg.get(code - 256) % 0x1_0000) as u64),
                Width::Word => Ok(self.vec_reg.get(code - 256) as u64),
            }
        } else if 129 <= code && code <= 192 {
            Ok((code - 128) as u64)
        } else if 193 <= code && code <= 208 {
            let k: u64 = (code - 192) as u64;
            match width {
                Width::Half => Ok(0x1_0000 - k),
                Width::Word => Ok(0x1_0000_0000 - k),
                Width::Wide => Ok(0xffff_ffff_ffff_ffff - k + 1),
            }
        } else if 240 <= code && code <= 247 {
            let step: u64 = ((code - 240) / 2) as u64;
            let negative: bool = (code - 240) % 2 == 1;
            match width {
                Width::Half => Ok(0x3800 + step * 0x400 + if negative { 0x8000 } else { 0 }),
                Width::Word => Ok(
                    0x3f00_0000 + step * 0x80_0000 + if negative { 0x8000_0000 } else { 0 },
                ),
                Width::Wide => Ok(
                    0x3fe0_0000_0000_0000 + step * 0x10_0000_0000_0000 + if negative {
                        0x8000_0000_0000_0000
                    } else {
                        0
                    },
                ),
            }
        } else if code > 0xffff_ffff {
            Err(Fault::InvalidOperandCode(0xffff_ffff))
        } else {
            let v: u32 = self._common_srcs(code as u32)?;
            match width {
                Width::Half => Ok((v % 0x1_0000) as u64),
                _ => Ok(v as u64),
            }
        }
    }

    /// The change that stores `val` at a scalar destination code.
    pub fn plan_sdst(code: u32, val: u32) -> (r: Result<Write, Fault>)
        ensures
            r == sdst_write(code, val),
            r is Ok ==> forall|m: Machine| valid_write(m, r->Ok_0),
    {
        if code <= 104 {
            Ok(Write::Sgpr(code as usize, val))
        } else if code == 106 {
            Ok(Write::Vcc(val))
        } else if code == 126 {
            Ok(Write::Exec(val))
        } else {
            Err(Fault::InvalidOperandCode(code))
        }
    }

    /// Makes one change.
    pub fn commit_write(&mut self, w: Write)
        requires
            valid_write(old(self)@, w),
        ensures
            final(self)@ == apply_write(old(self)@, w),
    {
        match w {
            Write::Skip => {},
            Write::Sgpr(i, v) => {
                self.scalar_reg[i] = v;
            },
            Write::Vgpr(l, i, v) => {
                self.vec_reg.write_lane(l, i, v);
            },
            Write::Scc(v) => {
                self.scc = v;
            },
            Write::Vcc(v) => {
                self.vcc.assign(v);
            },
            Write::Exec(v) => {
                self.exec_mask = v;
            },
            Write::Scratch(a, v) => {
                self.store_word(a, v);
            },
        }
    }

    /// Stores a word in the scratch memory, least significant byte first,
    /// after extending the memory if the word would reach its end.
    pub fn store_word(&mut self, addr: usize, word: u32)
        requires
            old(self).lds.len() + addr + 5 <= usize::MAX,
        ensures
            final(self)@ == (Machine { lds: with_word(old(self)@.lds, addr as int, word), ..old(self)@ }),
    {
        if addr + 4 >= self.lds.len() {
            let ghost before = self.lds@;
            let mut k: usize = 0;
            while k < addr + 5
                invariant
                    k <= addr + 5,
                    before.len() + addr + 5 <= usize::MAX,
                    self.lds@ == before + Seq::new(k as nat, |i: int| 0u8),
                    self@ == (Machine { lds: self.lds@, ..old(self)@ }),
                decreases addr + 5 - k,
            {
                self.lds.push(0u8);
                k = k + 1;
                assert(self.lds@ =~= before + Seq::new(k as nat, |i: int| 0u8));
            }
        }
        assert(self.lds@ == grown(old(self)@.lds, addr as int));
        self.lds[addr] = (word % 0x100) as u8;
        self.lds[addr + 1] = ((word / 0x100) % 0x100) as u8;
        self.lds[addr + 2] = ((word / 0x1_0000) % 0x100) as u8;
        self.lds[addr + 3] = (word / 0x100_0000) as u8;
    }

    /// Stores `val` at a scalar destination code: a scalar register, the
    /// vector condition code or the execution mask.
    pub fn write_to_sdst(&mut self, sdst_bf: u32, val: u32) -> (r: Result<(), Fault>)
        ensures
            match sdst_write(sdst_bf, val) {
                Ok(w) => r is Ok && final(self)@ == apply_write(old(self)@, w),
                Err(f) => r == Err::<(), Fault>(f) && final(self)@ == old(self)@,
            },
    {
        let w = Self::plan_sdst(sdst_bf, val)?;
        self.commit_write(w);
        Ok(())
    }

    /// Makes the changes of an instruction.
    pub fn commit(&mut self, fx: Effects)
        requires
            valid_effects(old(self)@, fx),
        ensures
            final(self)@ == apply(old(self)@, fx),
    {
        self.commit_write(fx.w0);
        self.commit_write(fx.w1);
        self.commit_write(fx.w2);
        self.commit_write(fx.w3);
        match fx.next {
            Next::Continue => {},
            Next::Ask(_, pending) => {
                self.pending = pending;
            },
        }
    }
}

/// A fresh machine on an empty scratch memory, for a wave of the given name.
pub fn _helper_test_cpu(_wave_id: &str) -> (r: CPU)
    ensures
        r@.pc == 0,
        r@.scc == 0,
        r@.vcc == 0,
        r@.exec_mask == 0,
        r@.lds.len() == 0,
        r@.prg.len() == 0,
        r@.pending == Pending::Idle,
        forall|i: int| 0 <= i < SGPR_COUNT ==> r@.sgpr[i] == 0,
        forall|l: int, i: int|
            0 <= l < LANE_COUNT && 0 <= i < VGPR_COUNT ==> #[trigger] r@.vgpr[l][i] == 0,
{
    CPU::new(Vec::new())
}

impl ALUSrc<u16> for CPU {
    open spec fn source(&self, code: usize) -> Result<(u16, Machine), Fault> {
        match operand(self@, code, Width::Half) {
            Ok((v, m)) => Ok((v as u16, m)),
            Err(f) => Err(f),
        }
    }

    open spec fn machine(&self) -> Machine {
        self@
    }

    fn val(&mut self, code: usize) -> (r: Result<u16, Fault>)
    {
        let v: u64 = self.resolve(code, Width::Half)?;
        Ok(v as u16)
    }
}

impl ALUSrc<u32> for CPU {
    open spec fn source(&self, code: usize) -> Result<(u32, Machine), Fault> {
        match operand(self@, code, Width::Word) {
            Ok((v, m)) => Ok((v as u32, m)),
            Err(f) => Err(f),
        }
    }

    open spec fn machine(&self) -> Machine {
        self@
    }

    fn val(&mut self, code: usize) -> (r: Result<u32, Fault>)
    {
        let v: u64 = self.resolve(code, Width::Word)?;
        Ok(v as u32)
    }
}

impl ALUSrc<u64> for CPU {
    open spec fn source(&self, code: usize) -> Result<(u64, Machine), Fault> {
        operand(self@, code, Width::Wide)
    }

    open spec fn machine(&self) -> Machine {
        self@
    }

    fn val(&mut self, code: usize) -> (r: Result<u64, Fault>)
    {
        self.resolve(code, Width::Wide)
    }
}

} // verus!
