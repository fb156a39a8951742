//! The memory unit: scalar loads (SMEM), the local scratch memory (LDS) and
//! the linear address space (GLOBAL).
//!
//! The scratch memory belongs to the machine. The linear address space does
//! not: a scalar or global access computes its address and asks the caller
//! to read or write there.
use vstd::prelude::*;
use crate::arith::wrap64;
use crate::cpu::{asks_well, 
    apply_write, operand, planned, valid_effects, wide_instruction, word_at,
    Machine, Width, CPU,
};
use crate::protocol::{Effects, Fault, Pending, Request, Write};
use crate::state::{pair_of, Register};
use crate::utils::{lemma_sign_ext_fields, sign_ext, sign_ext_of};

verus! {

/// An address moved by signed and unsigned offsets, modulo 2^64.
pub open spec fn address(base: u64, offset: int, index: u64) -> u64 {
    wrap64(base + offset + index)
}

/// Adds a signed offset and an unsigned index to a base address.
pub fn effective_address(base: u64, offset: i64, index: u32) -> (r: u64)
    requires
        -0x1_0000_0000 <= offset <= 0x1_0000_0000,
    ensures
        r == address(base, offset as int, index as u64),
{
    let sum: i128 = base as i128 + offset as i128 + index as i128;
    if sum < 0 {
        (sum + 0x1_0000_0000_0000_0000) as u64
    } else if sum >= 0x1_0000_0000_0000_0000 {
        (sum - 0x1_0000_0000_0000_0000) as u64
    } else {
        sum as u64
    }
}

/// The number of words that a scalar load of the given opcode reads.
pub open spec fn smem_words(op: u32) -> usize {
    if op == 0 {
        1
    } else if op == 1 {
        2
    } else if op == 2 {
        4
    } else if op == 3 {
        8
    } else {
        16
    }
}

/// SMEM: loads `2^op` words into consecutive scalar registers. The address
/// is the register pair `sbase`, plus the signed 21-bit immediate, plus the
/// scalar offset operand, whose value counts as zero when it is the null
/// source.
pub open spec fn smem_effects(m: Machine, word: u32) -> Result<(Machine, Effects), Fault> {
    match wide_instruction(m) {
        Err(e) => Err(e),
        Ok((instr, m0)) => {
            let sbase = ((instr % 0x40) * 2) as usize;
            let sdata = ((instr / 0x40) % 0x80) as usize;
            let op = ((instr / 0x4_0000) % 0x100) as u32;
            let offset = sign_ext_of((instr / 0x1_0000_0000) % 0x20_0000, 21);
            let code = (instr / 0x200_0000_0000_0000) as usize;
            match operand(m0, code, Width::Word) {
                Err(e) => Err(e),
                Ok((so, m1)) => if sbase >= 104 {
                    Err(Fault::InvalidOperandCode(sbase as u32))
                } else if op > 4 {
                    Err(Fault::UnsupportedInstruction(word))
                } else if sdata + smem_words(op) > 105 {
                    Err(Fault::InvalidOperandCode(sdata as u32))
                } else {
                    Ok(
                        (
                            m1,
                            Effects::asking(
                                Request::Load {
                                    addr: address(
                                        pair_of(m.sgpr, sbase as int),
                                        offset as int,
                                        if so == 124 {
                                            0
                                        } else {
                                            so
                                        },
                                    ),
                                    len: (4 * smem_words(op)) as usize,
                                },
                                Pending::Scalars(sdata, smem_words(op)),
                            ),
                        ),
                    )
                },
            }
        },
    }
}

/// The effects of a scratch load: four words to four vector registers.
pub open spec fn scratch_load(lds: Seq<u8>, addr: int, vdst: usize) -> Effects {
    Effects::of(
        Write::Vgpr(0, vdst, word_at(lds, addr)),
        Write::Vgpr(0, (vdst + 1) as usize, word_at(lds, addr + 4)),
        Write::Vgpr(0, (vdst + 2) as usize, word_at(lds, addr + 8)),
        Write::Vgpr(0, (vdst + 3) as usize, word_at(lds, addr + 12)),
    )
}

/// The effects of a scratch store of one word or of four.
pub open spec fn scratch_store(regs: Seq<u32>, addr: int, data: int, four: bool) -> Effects {
    if four {
        Effects::of(
            Write::Scratch(addr as usize, regs[data]),
            Write::Scratch((addr + 4) as usize, regs[data + 1]),
            Write::Scratch((addr + 8) as usize, regs[data + 2]),
            Write::Scratch((addr + 12) as usize, regs[data + 3]),
        )
    } else {
        Effects::of(Write::Scratch(addr as usize, regs[data]), Write::Skip, Write::Skip, Write::Skip)
    }
}

/// LDS: loads and stores of the local scratch memory. The address is one
/// vector register plus an 8-bit offset. A load must lie within the memory;
/// a store extends the memory where it has to. A store is refused only
/// where the extended memory could not be addressed.
pub open spec fn lds_effects(m: Machine, word: u32) -> Result<(Machine, Effects), Fault> {
    match wide_instruction(m) {
        Err(e) => Err(e),
        Ok((instr, m0)) => {
            let offset0 = instr % 0x100;
            let op = (instr / 0x4_0000) % 0x100;
            let areg = ((instr / 0x1_0000_0000) % 0x100) as int;
            let data0 = ((instr / 0x100_0000_0000) % 0x100) as int;
            let vdst = (instr / 0x100_0000_0000_0000) as usize;
            let addr = m.vgpr[0][areg] + offset0;
            if op == 255 {
                if vdst + 3 > 255 {
                    Err(Fault::InvalidOperandCode((256 + vdst) as u32))
                } else if addr + 16 > m.lds.len() {
                    Err(Fault::ScratchRange)
                } else {
                    Ok((m0, scratch_load(m.lds, addr, vdst)))
                }
            } else if op == 13 || op == 223 {
                if data0 + (if op == 223 { 4int } else { 1 }) > 256 {
                    Err(Fault::InvalidOperandCode((256 + data0) as u32))
                } else if m.lds.len() + 4 * (addr + 17) > usize::MAX {
                    Err(Fault::ScratchRange)
                } else {
                    Ok((m0, scratch_store(m.vgpr[0], addr, data0, op == 223)))
                }
            } else {
                Err(Fault::UnsupportedInstruction(word))
            }
        },
    }
}

/// Up to four registers in a row as one number, the first register lowest.
pub open spec fn packed_words(regs: Seq<u32>, first: int, n: int) -> u128 {
    ((if n > 0 {
        regs[first] as int
    } else {
        0
    }) + (if n > 1 {
        regs[first + 1] * 0x1_0000_0000
    } else {
        0
    }) + (if n > 2 {
        regs[first + 2] * 0x1_0000_0000_0000_0000
    } else {
        0
    }) + (if n > 3 {
        regs[first + 3] * 0x1_0000_0000_0000_0000_0000_0000
    } else {
        0
    })) as u128
}

/// What a GLOBAL opcode asks of the caller at an address. `None` for an
/// opcode without semantics; a fault where the registers it names leave the
/// file.
pub open spec fn global_request(op: u32, addr: u64, regs: Seq<u32>, data: int, vdst: usize)
    -> Option<Result<Effects, Fault>> {
    if op == 16 || op == 17 {
        Some(Ok(Effects::asking(Request::Load { addr, len: 1 }, Pending::Narrow(vdst, 1, op == 17))))
    } else if op == 18 || op == 19 {
        Some(Ok(Effects::asking(Request::Load { addr, len: 2 }, Pending::Narrow(vdst, 2, op == 19))))
    } else if 20 <= op <= 23 {
        if vdst + (op - 19) > 256 {
            Some(Err(Fault::InvalidOperandCode((256 + vdst) as u32)))
        } else {
            Some(
                Ok(
                    Effects::asking(
                        Request::Load { addr, len: (4 * (op - 19)) as usize },
                        Pending::Vectors(vdst, (op - 19) as usize),
                    ),
                ),
            )
        }
    } else if op == 24 {
        Some(
            Ok(
                Effects::asking(
                    Request::Store { addr, len: 1, data: (regs[data] % 0x100) as u128 },
                    Pending::Store,
                ),
            ),
        )
    } else if op == 25 {
        Some(
            Ok(
                Effects::asking(
                    Request::Store { addr, len: 2, data: (regs[data] % 0x1_0000) as u128 },
                    Pending::Store,
                ),
            ),
        )
    } else if 26 <= op <= 29 {
        if data + (op - 25) > 256 {
            Some(Err(Fault::InvalidOperandCode((256 + data) as u32)))
        } else {
            Some(
                Ok(
                    Effects::asking(
                        Request::Store {
                            addr,
                            len: (4 * (op - 25)) as usize,
                            data: packed_words(regs, data, op - 25),
                        },
                        Pending::Store,
                    ),
                ),
            )
        }
    } else {
        None
    }
}

/// GLOBAL: loads and stores in the linear address space. With the null
/// source as scalar address the address is a vector register pair plus the
/// signed 13-bit offset; else it is a scalar register pair, plus a vector
/// register, plus the offset.
pub open spec fn global_effects(m: Machine, word: u32) -> Result<(Machine, Effects), Fault> {
    match wide_instruction(m) {
        Err(e) => Err(e),
        Ok((instr, m0)) => {
            let offset = sign_ext_of(instr % 0x2000, 13);
            let op = ((instr / 0x4_0000) % 0x80) as u32;
            let areg = ((instr / 0x1_0000_0000) % 0x100) as int;
            let data = ((instr / 0x100_0000_0000) % 0x100) as int;
            let saddr = ((instr / 0x1_0000_0000_0000) % 0x80) as usize;
            let vdst = (instr / 0x100_0000_0000_0000) as usize;
            match operand(m0, saddr, Width::Word) {
                Err(e) => Err(e),
                Ok((_, m1)) => {
                    let addr = if saddr == 124 {
                        if areg < 255 {
                            Ok(address(pair_of(m.vgpr[0], areg), offset as int, 0))
                        } else {
                            Err(Fault::InvalidOperandCode((256 + areg) as u32))
                        }
                    } else {
                        if saddr < 104 {
                            Ok(
                                address(
                                    pair_of(m.sgpr, saddr as int),
                                    offset as int,
                                    m.vgpr[0][areg] as u64,
                                ),
                            )
                        } else {
                            Err(Fault::InvalidOperandCode(saddr as u32))
                        }
                    };
                    match addr {
                        Err(e) => Err(e),
                        Ok(a) => match global_request(op, a, m.vgpr[0], data, vdst) {
                            None => Err(Fault::UnsupportedInstruction(word)),
                            Some(Err(e)) => Err(e),
                            Some(Ok(fx)) => Ok((m1, fx)),
                        },
                    }
                },
            }
        },
    }
}

impl CPU {
    /// Reads a word of the scratch memory, least significant byte first.
    pub fn load_word(&self, addr: usize) -> (r: u32)
        requires
            addr + 4 <= self.lds.len(),
        ensures
            r == word_at(self@.lds, addr as int),
    {
        self.lds[addr] as u32 + (self.lds[addr + 1] as u32) * 0x100 + (self.lds[addr + 2] as u32)
            * 0x1_0000 + (self.lds[addr + 3] as u32) * 0x100_0000
    }

    /// Packs up to four vector registers of lane 0 into one number.
    fn pack_words(&self, first: usize, n: usize) -> (r: u128)
        requires
            n <= 4,
            first + n <= 256,
        ensures
            r == packed_words(self@.vgpr[0], first as int, n as int),
    {
        let w0: u128 = if n > 0 {
            self.vec_reg.get(first) as u128
        } else {
            0
        };
        let w1: u128 = if n > 1 {
            (self.vec_reg.get(first + 1) as u128) * 0x1_0000_0000
        } else {
            0
        };
        let w2: u128 = if n > 2 {
            (self.vec_reg.get(first + 2) as u128) * 0x1_0000_0000_0000_0000
        } else {
            0
        };
        let w3: u128 = if n > 3 {
            (self.vec_reg.get(first + 3) as u128) * 0x1_0000_0000_0000_0000_0000_0000
        } else {
            0
        };
        w0 + w1 + w2 + w3
    }

    /// Plans a SMEM instruction.
    pub fn smem(&mut self, word: u32) -> (r: Result<Effects, Fault>)
        ensures
            planned(old(self)@, final(self)@, r, smem_effects(old(self)@, word)),
    {
        let instr: u64 = self.u64_instr()?;
        let sbase: usize = ((instr % 0x40) * 2) as usize;
        let sdata: usize = ((instr / 0x40) % 0x80) as usize;
        let op: u32 = ((instr / 0x4_0000) % 0x100) as u32;
        let field: u64 = (instr / 0x1_0000_0000) % 0x20_0000;
        let offset: i64 = sign_ext(field, 21);
        proof {
            lemma_sign_ext_fields(field);
        }
        let code: usize = (instr / 0x200_0000_0000_0000) as usize;
        let so: u64 = self.resolve(code, Width::Word)?;
        let soffset: u32 = if so == 124 {
            0
        } else {
            so as u32
        };
        if sbase >= 104 {
            return Err(Fault::InvalidOperandCode(sbase as u32));
        }
        if op > 4 {
            return Err(Fault::UnsupportedInstruction(word));
        }
        let count: usize = if op == 0 {
            1
        } else if op == 1 {
            2
        } else if op == 2 {
            4
        } else if op == 3 {
            8
        } else {
            16
        };
        if sdata + count > 105 {
            return Err(Fault::InvalidOperandCode(sdata as u32));
        }
        let base: u64 = self.scalar_reg.read64(sbase);
        let addr: u64 = effective_address(base, offset, soffset);
        Ok(Effects::ask(Request::Load { addr, len: 4 * count }, Pending::Scalars(sdata, count)))
    }

    /// Plans an LDS instruction.
    pub fn lds_family(&mut self, word: u32) -> (r: Result<Effects, Fault>)
        ensures
            planned(old(self)@, final(self)@, r, lds_effects(old(self)@, word)),
    {
        let instr: u64 = self.u64_instr()?;
        let offset0: u64 = instr % 0x100;
        let op: u64 = (instr / 0x4_0000) % 0x100;
        let areg: usize = ((instr / 0x1_0000_0000) % 0x100) as usize;
        let data0: usize = ((instr / 0x100_0000_0000) % 0x100) as usize;
        let vdst: usize = (instr / 0x100_0000_0000_0000) as usize;
        let addr: u64 = self.vec_reg.get(areg) as u64 + offset0;
        if op == 255 {
            if vdst + 3 > 255 {
                Err(Fault::InvalidOperandCode((256 + vdst) as u32))
            } else if addr + 16 > self.lds.len() as u64 {
                Err(Fault::ScratchRange)
            } else {
                let a: usize = addr as usize;
                Ok(
                    Effects::four(
                        Write::Vgpr(0, vdst, self.load_word(a)),
                        Write::Vgpr(0, vdst + 1, self.load_word(a + 4)),
                        Write::Vgpr(0, vdst + 2, self.load_word(a + 8)),
                        Write::Vgpr(0, vdst + 3, self.load_word(a + 12)),
                    ),
                )
            }
        } else if op == 13 || op == 223 {
            let n: usize = if op == 223 {
                4
            } else {
                1
            };
            if data0 + n > 256 {
                Err(Fault::InvalidOperandCode((256 + data0) as u32))
            } else if (self.lds.len() as u128) + 4 * (addr as u128 + 17) > usize::MAX as u128 {
                Err(Fault::ScratchRange)
            } else {
                let a: usize = addr as usize;
                let fx = if op == 223 {
                    Effects::four(
                        Write::Scratch(a, self.vec_reg.get(data0)),
                        Write::Scratch(a + 4, self.vec_reg.get(data0 + 1)),
                        Write::Scratch(a + 8, self.vec_reg.get(data0 + 2)),
                        Write::Scratch(a + 12, self.vec_reg.get(data0 + 3)),
                    )
                } else {
                    Effects::one(Write::Scratch(a, self.vec_reg.get(data0)))
                };
                proof {
                    let m = self@;
                    let m1 = apply_write(m, fx.w0);
                    let m2 = apply_write(m1, fx.w1);
                    let m3 = apply_write(m2, fx.w2);
                    assert(m1.lds.len() <= m.lds.len() + a + 5);
                    assert(m2.lds.len() <= m1.lds.len() + a + 9);
                    assert(m3.lds.len() <= m2.lds.len() + a + 13);
                    assert(valid_effects(m, fx));
                }
                Ok(fx)
            }
        } else {
            Err(Fault::UnsupportedInstruction(word))
        }
    }

    /// What a GLOBAL opcode asks of the caller.
    fn global_plan(&self, op: u32, addr: u64, data: usize, vdst: usize) -> (r: Option<
        Result<Effects, Fault>,
    >)
        requires
            data < 256,
            vdst < 256,
        ensures
            r == global_request(op, addr, self@.vgpr[0], data as int, vdst),
    {
        if op == 16 || op == 17 {
            Some(Ok(Effects::ask(Request::Load { addr, len: 1 }, Pending::Narrow(vdst, 1, op == 17))))
        } else if op == 18 || op == 19 {
            Some(Ok(Effects::ask(Request::Load { addr, len: 2 }, Pending::Narrow(vdst, 2, op == 19))))
        } else if 20 <= op && op <= 23 {
            let n: usize = (op - 19) as usize;
            if vdst + n > 256 {
                Some(Err(Fault::InvalidOperandCode((256 + vdst) as u32)))
            } else {
                Some(Ok(Effects::ask(Request::Load { addr, len: 4 * n }, Pending::Vectors(vdst, n))))
            }
        } else if op == 24 {
            Some(
                Ok(
                    Effects::ask(
                        Request::Store {
                            addr,
                            len: 1,
                            data: (self.vec_reg.get(data) % 0x100) as u128,
                        },
                        Pending::Store,
                    ),
                ),
            )
        } else if op == 25 {
            Some(
                Ok(
                    Effects::ask(
                        Request::Store {
                            addr,
                            len: 2,
                            data: (self.vec_reg.get(data) % 0x1_0000) as u128,
                        },
                        Pending::Store,
                    ),
                ),
            )
        } else if 26 <= op && op <= 29 {
            let n: usize = (op - 25) as usize;
            if data + n > 256 {
                Some(Err(Fault::InvalidOperandCode((256 + data) as u32)))
            } else {
                Some(
                    Ok(
                        Effects::ask(
                            Request::Store { addr, len: 4 * n, data: self.pack_words(data, n) },
                            Pending::Store,
                        ),
                    ),
                )
            }
        } else {
            None
        }
    }

    /// Plans a GLOBAL instruction.
    pub fn global(&mut self, word: u32) -> (r: Result<Effects, Fault>)
        ensures
            planned(old(self)@, final(self)@, r, global_effects(old(self)@, word)),
    {
        let instr: u64 = self.u64_instr()?;
        let field: u64 = instr % 0x2000;
        let offset: i64 = sign_ext(field, 13);
        proof {
            lemma_sign_ext_fields(field);
        }
        let op: u32 = ((instr / 0x4_0000) % 0x80) as u32;
        let areg: usize = ((instr / 0x1_0000_0000) % 0x100) as usize;
        let data: usize = ((instr / 0x100_0000_0000) % 0x100) as usize;
        let saddr: usize = ((instr / 0x1_0000_0000_0000) % 0x80) as usize;
        let vdst: usize = (instr / 0x100_0000_0000_0000) as usize;
        let _s: u64 = self.resolve(saddr, Width::Word)?;
        let addr: u64 = if saddr == 124 {
            if areg < 255 {
                effective_address(self.vec_reg.read64(areg), offset, 0)
            } else {
                return Err(Fault::InvalidOperandCode((256 + areg) as u32));
            }
        } else {
            if saddr < 104 {
                effective_address(self.scalar_reg.read64(saddr), offset, self.vec_reg.get(areg))
            } else {
                return Err(Fault::InvalidOperandCode(saddr as u32));
            }
        };
        match self.global_plan(op, addr, data, vdst) {
            None => Err(Fault::UnsupportedInstruction(word)),
            Some(Err(e)) => Err(e),
            Some(Ok(fx)) => Ok(fx),
        }
    }
}

/// A SMEM instruction that asks leaves pending what continues its
/// request.
pub proof fn lemma_smem_asks_well(m: Machine, word: u32)
    requires
        smem_effects(m, word) is Ok,
    ensures
        asks_well(smem_effects(m, word)->Ok_0.1),
{
}

/// A LDS instruction that asks leaves pending what continues its
/// request.
pub proof fn lemma_lds_asks_well(m: Machine, word: u32)
    requires
        lds_effects(m, word) is Ok,
    ensures
        asks_well(lds_effects(m, word)->Ok_0.1),
{
}

/// A GLOBAL instruction that asks leaves pending what continues its
/// request.
pub proof fn lemma_global_asks_well(m: Machine, word: u32)
    requires
        global_effects(m, word) is Ok,
    ensures
        asks_well(global_effects(m, word)->Ok_0.1),
{
}

} // verus!
