//! The program controller: fetch, predication, dispatch to the families,
//! and the exchange of requests and replies with the caller.
use vstd::prelude::*;
use crate::arith::{extend16, extend8, signed16, wrap32};
use crate::cpu::{apply, asks_well, word_at, Machine, CPU};
use crate::decode::{classify, family_of, is_noop, is_predicated, noop, predicated, Family};
use crate::dual::{vopd_effects, vopp_effects};
use crate::memory::{global_effects, lds_effects, smem_effects};
use crate::protocol::{
    answers, expects, in_range, Effects, Fault, Next, Pending, Reply, Request, Status,
};
use crate::scalar::{sop1_effects, sop2_effects, sopc_effects, sopk_effects, sopp_effects};
use crate::state::{
    low_word, split_words, with_lane_slot, with_pair, Assign, Register, SGPR_COUNT, VGPR_COUNT,
};
use crate::utils::END_PRG;
use crate::vector::{vop1_effects, vop2_effects, vopc_effects};
use crate::vop3::vop3_effects;

verus! {

/// The number of instructions that one call executes at most.
pub const BUDGET: u64 = 0xffff_ffff_ffff_ffff;

/// What an instruction does, by the family of its first word. The program
/// counter of `m` points behind that word.
#[verifier::opaque]
pub open spec fn instruction_effects(m: Machine, word: u32) -> Result<(Machine, Effects), Fault> {
    match family_of(word) {
        None => Err(Fault::UnsupportedInstruction(word)),
        Some(Family::SMEM) => smem_effects(m, word),
        Some(Family::SOP1) => sop1_effects(m, word),
        Some(Family::SOPC) => sopc_effects(m, word),
        Some(Family::SOPP) => sopp_effects(m, word),
        Some(Family::SOPK) => sopk_effects(m, word),
        Some(Family::SOP2) => sop2_effects(m, word),
        Some(Family::VOPP) => vopp_effects(m, word),
        Some(Family::VOP1) => vop1_effects(m, word),
        Some(Family::VOPD) => vopd_effects(m, word),
        Some(Family::VOPC) => vopc_effects(m, word),
        Some(Family::VOP2) => vop2_effects(m, word),
        Some(Family::VOP3) => vop3_effects(m, word),
        Some(Family::LDS) => lds_effects(m, word),
        Some(Family::GLOBAL) => global_effects(m, word),
    }
}

/// The request that the effects of an instruction end with, if any.
pub open spec fn request_of(fx: Effects) -> Option<Request> {
    match fx.next {
        Next::Continue => None,
        Next::Ask(request, _) => Some(request),
    }
}

/// The machine after an instruction whose first word was fetched, and the
/// request it makes. A predicated word does nothing while the execution
/// mask is zero.
pub open spec fn executed(m: Machine, word: u32) -> Result<(Machine, Option<Request>), Fault> {
    if is_predicated(word) && m.exec_mask == 0 {
        Ok((m, None))
    } else {
        match instruction_effects(m, word) {
            Err(f) => Err(f),
            Ok((m1, fx)) => Ok((apply(m1, fx), request_of(fx))),
        }
    }
}

/// One step of the program controller: fetches the word at the program
/// counter and moves on; stops at the terminator; skips a no-op word;
/// executes any other. The result holds the status where the controller
/// stops.
pub open spec fn step(m: Machine) -> Result<(Machine, Option<Status>), Fault> {
    if m.pc >= m.prg.len() {
        Err(Fault::ProgramEnd)
    } else {
        let word = m.prg[m.pc as int];
        let m1 = m.at((m.pc + 1) as u64);
        if word == END_PRG {
            Ok((m1, Some(Status::Halted)))
        } else if is_noop(word) {
            Ok((m1, None))
        } else {
            match executed(m1, word) {
                Err(f) => Err(f),
                Ok((m2, None)) => Ok((m2, None)),
                Ok((m2, Some(request))) => Ok((m2, Some(Status::Waiting(request)))),
            }
        }
    }
}

/// Steps until the controller stops, a fault occurs, or `fuel` instructions
/// were executed. After a fault the machine is as it was before the
/// instruction that caused it.
pub open spec fn run(m: Machine, fuel: nat) -> (Machine, Result<Status, Fault>)
    decreases fuel,
{
    if fuel == 0 {
        (m, Err(Fault::Budget))
    } else {
        match step(m) {
            Err(f) => (m, Err(f)),
            Ok((m1, Some(status))) => (m1, Ok(status)),
            Ok((m1, None)) => run(m1, (fuel - 1) as nat),
        }
    }
}

/// The machine at the start of a program: program counter and vector
/// condition code zero, lane 0 active, nothing pending. Registers, the
/// scalar condition code and the scratch memory are the caller's.
pub open spec fn started(m: Machine, prg: Seq<u32>) -> Machine {
    Machine { pc: 0, vcc: 0, exec_mask: 1, prg, pending: Pending::Idle, ..m }
}

/// Registers `first` to `first + n - 1` filled with the words of `data`,
/// each least significant byte first.
pub open spec fn filled(regs: Seq<u32>, first: int, n: int, data: Seq<u8>) -> Seq<u32> {
    Seq::new(
        regs.len(),
        |i: int|
            if first <= i < first + n {
                word_at(data, 4 * (i - first))
            } else {
                regs[i]
            },
    )
}

/// One or two bytes as a register value, extended by zeros or by the sign.
pub open spec fn narrow_value(data: Seq<u8>, signed: bool) -> u32 {
    if data.len() == 1 {
        if signed {
            wrap32(
                if data[0] >= 0x80 {
                    data[0] - 0x100
                } else {
                    data[0] as int
                },
            )
        } else {
            data[0] as u32
        }
    } else {
        let h = (data[0] + data[1] * 0x100) as u16;
        if signed {
            wrap32(signed16(h))
        } else {
            h as u32
        }
    }
}

/// The machine after the reply to its pending request was committed, and
/// the request that follows at once, if one does. A reply that does not fit
/// what is pending is a fault.
pub open spec fn delivered(m: Machine, reply: Reply) -> Result<(Machine, Option<Request>), Fault> {
    let idle = Machine { pending: Pending::Idle, ..m };
    match (m.pending, reply) {
        (Pending::Vector(i), Reply::Value(v)) => if i < VGPR_COUNT {
            Ok((Machine { vgpr: with_lane_slot(m.vgpr, 0, i as int, low_word(v)), ..idle }, None))
        } else {
            Err(Fault::UnexpectedReply)
        },
        (Pending::VectorPair(i), Reply::Value(v)) => if i + 1 < VGPR_COUNT {
            Ok((Machine { vgpr: m.vgpr.update(0, with_pair(m.vgpr[0], i as int, v)), ..idle }, None))
        } else {
            Err(Fault::UnexpectedReply)
        },
        (Pending::VectorThen(i, call, j), Reply::Value(v)) => if i < VGPR_COUNT {
            Ok(
                (
                    Machine {
                        vgpr: with_lane_slot(m.vgpr, 0, i as int, low_word(v)),
                        pending: Pending::Vector(j),
                        ..m
                    },
                    Some(Request::Float(call)),
                ),
            )
        } else {
            Err(Fault::UnexpectedReply)
        },
        (Pending::Scalars(first, n), Reply::Data(d)) => if first + n <= SGPR_COUNT && d@.len() == 4
            * n {
            Ok((Machine { sgpr: filled(m.sgpr, first as int, n as int, d@), ..idle }, None))
        } else {
            Err(Fault::UnexpectedReply)
        },
        (Pending::Vectors(first, n), Reply::Data(d)) => if first + n <= VGPR_COUNT && d@.len() == 4
            * n {
            Ok(
                (
                    Machine {
                        vgpr: m.vgpr.update(0, filled(m.vgpr[0], first as int, n as int, d@)),
                        ..idle
                    },
                    None,
                ),
            )
        } else {
            Err(Fault::UnexpectedReply)
        },
        (Pending::Narrow(i, bytes, signed), Reply::Data(d)) => if i < VGPR_COUNT && d@.len()
            == bytes && 1 <= bytes <= 2 {
            Ok(
                (
                    Machine {
                        vgpr: with_lane_slot(m.vgpr, 0, i as int, narrow_value(d@, signed)),
                        ..idle
                    },
                    None,
                ),
            )
        } else {
            Err(Fault::UnexpectedReply)
        },
        (Pending::Store, Reply::Stored) => Ok((idle, None)),
        _ => Err(Fault::UnexpectedReply),
    }
}

/// The machine and the result of a call that hands a reply to a waiting
/// machine: the reply is committed, and unless a request follows at once
/// the program goes on.
pub open spec fn resumed(m: Machine, reply: Reply) -> (Machine, Result<Status, Fault>) {
    match delivered(m, reply) {
        Err(f) => (m, Err(f)),
        Ok((m1, Some(request))) => (m1, Ok(Status::Waiting(request))),
        Ok((m1, None)) => run(m1, BUDGET as nat),
    }
}

/// A no-op word does nothing: the step over it leaves every register, every
/// flag, the scratch memory and the program as they are and only moves the
/// program counter to the next word.
pub proof fn lemma_noop_changes_nothing(m: Machine)
    requires
        m.pc < m.prg.len(),
        is_noop(m.prg[m.pc as int]),
    ensures
        step(m) == Ok::<(Machine, Option<Status>), Fault>((m.at((m.pc + 1) as u64), None)),
{
}

/// While the execution mask is zero a word of a predicated family is
/// skipped like a no-op, whatever it encodes.
pub proof fn lemma_masked_changes_nothing(m: Machine)
    requires
        m.pc < m.prg.len(),
        m.prg[m.pc as int] != END_PRG,
        is_predicated(m.prg[m.pc as int]),
        m.exec_mask == 0,
    ensures
        step(m) == Ok::<(Machine, Option<Status>), Fault>((m.at((m.pc + 1) as u64), None)),
{
}

/// A branch changes nothing but the program counter, and the program
/// counter only if its condition holds: then it moves by the signed
/// immediate, counted from the word behind the branch, else it stays on
/// that word.
pub proof fn lemma_branch_moves_only_pc(m: Machine, word: u32)
    requires
        family_of(word) == Some(Family::SOPP),
    ensures
        match crate::scalar::branch_taken((word / 0x1_0000) % 0x80, m) {
            None => executed(m, word) == Err::<(Machine, Option<Request>), Fault>(
                Fault::UnsupportedInstruction(word),
            ),
            Some(taken) => executed(m, word) == Ok::<(Machine, Option<Request>), Fault>(
                (
                    m.at(
                        if taken {
                            crate::arith::wrap64(m.pc + signed16((word % 0x1_0000) as u16))
                        } else {
                            m.pc
                        },
                    ),
                    None,
                ),
            ),
        },
{
    reveal(instruction_effects);
    crate::decode::lemma_predicated_families(word);
}

/// A step that faults leaves the machine as it was, and so does a run:
/// what earlier instructions did stands, and the faulting instruction did
/// nothing.
pub proof fn lemma_fault_is_atomic(m: Machine, fuel: nat)
    ensures
        step(m) is Err ==> run(m, (fuel + 1) as nat) == (m, Err::<Status, Fault>(step(m)->Err_0)),
{
}

/// A run that ends within its budget ends in the same way with any larger
/// one: the budget decides nothing but where a program that goes on is
/// cut off.
pub proof fn lemma_budget_is_enough(m: Machine, fuel: nat, more: nat)
    requires
        run(m, fuel).1 != Err::<Status, Fault>(Fault::Budget),
    ensures
        run(m, fuel + more) == run(m, fuel),
    decreases fuel,
{
    if fuel > 0 {
        match step(m) {
            Ok((m1, None)) => {
                lemma_budget_is_enough(m1, (fuel - 1) as nat, more);
            },
            _ => {},
        }
    }
}

/// Whether a machine that waits with a request waits for its answer.
pub open spec fn waits_for(m: Machine, request: Request) -> bool {
    in_range(m.pending) && expects(m.pending, request)
}

/// Every instruction that asks leaves pending what continues its request.
pub proof fn lemma_instruction_asks_well(m: Machine, word: u32)
    requires
        instruction_effects(m, word) is Ok,
    ensures
        asks_well(instruction_effects(m, word)->Ok_0.1),
{
    reveal(instruction_effects);
    match family_of(word) {
        None => {},
        Some(Family::SMEM) => crate::memory::lemma_smem_asks_well(m, word),
        Some(Family::SOP1) => crate::scalar::lemma_sop1_asks_well(m, word),
        Some(Family::SOPC) => crate::scalar::lemma_sopc_asks_well(m, word),
        Some(Family::SOPP) => crate::scalar::lemma_sopp_asks_well(m, word),
        Some(Family::SOPK) => crate::scalar::lemma_sopk_asks_well(m, word),
        Some(Family::SOP2) => crate::scalar::lemma_sop2_asks_well(m, word),
        Some(Family::VOPP) => crate::dual::lemma_vopp_asks_well(m, word),
        Some(Family::VOP1) => crate::vector::lemma_vop1_asks_well(m, word),
        Some(Family::VOPD) => crate::dual::lemma_vopd_asks_well(m, word),
        Some(Family::VOPC) => crate::vector::lemma_vopc_asks_well(m, word),
        Some(Family::VOP2) => crate::vector::lemma_vop2_asks_well(m, word),
        Some(Family::VOP3) => crate::vop3::lemma_vop3_asks_well(m, word),
        Some(Family::LDS) => crate::memory::lemma_lds_asks_well(m, word),
        Some(Family::GLOBAL) => crate::memory::lemma_global_asks_well(m, word),
    }
}

/// A machine that stops with a request waits for the answer to it.
pub proof fn lemma_step_waits(m: Machine)
    ensures
        step(m) matches Ok((m1, Some(Status::Waiting(request)))) ==> waits_for(m1, request),
{
    if m.pc < m.prg.len() {
        let word = m.prg[m.pc as int];
        let m1 = m.at((m.pc + 1) as u64);
        if instruction_effects(m1, word) is Ok {
            lemma_instruction_asks_well(m1, word);
        }
    }
}

/// A run that stops with a request waits for the answer to it.
pub proof fn lemma_run_waits(m: Machine, fuel: nat)
    ensures
        run(m, fuel) matches (m1, Ok(Status::Waiting(request))) ==> waits_for(m1, request),
    decreases fuel,
{
    if fuel > 0 {
        lemma_step_waits(m);
        match step(m) {
            Ok((m1, None)) => {
                lemma_run_waits(m1, (fuel - 1) as nat);
            },
            _ => {},
        }
    }
}

/// A machine that waits for the answer to a request accepts every reply
/// that answers it; and if it stops with a request again, it waits for the
/// answer to that one.
pub proof fn lemma_answer_is_accepted(m: Machine, request: Request, reply: Reply)
    requires
        waits_for(m, request),
        answers(request, reply),
    ensures
        delivered(m, reply) is Ok,
        resumed(m, reply) matches (m1, Ok(Status::Waiting(next))) ==> waits_for(m1, next),
{
    match delivered(m, reply) {
        Ok((m1, None)) => {
            lemma_run_waits(m1, BUDGET as nat);
        },
        _ => {},
    }
}

fn word_of(data: &Vec<u8>, at: usize) -> (r: u32)
    requires
        at + 4 <= data.len(),
    ensures
        r == word_at(data@, at as int),
{
    data[at] as u32 + (data[at + 1] as u32) * 0x100 + (data[at + 2] as u32) * 0x1_0000 + (data[at
        + 3] as u32) * 0x100_0000
}

fn narrow(data: &Vec<u8>, signed: bool) -> (r: u32)
    requires
        1 <= data.len() <= 2,
    ensures
        r == narrow_value(data@, signed),
{
    if data.len() == 1 {
        if signed {
            extend8(data[0])
        } else {
            data[0] as u32
        }
    } else {
        let h: u16 = data[0] as u16 + (data[1] as u16) * 0x100;
        if signed {
            extend16(h)
        } else {
            h as u32
        }
    }
}

impl CPU {
    /// Executes the instruction whose first word was fetched: dispatches it
    /// to its family, unless predication skips it, and commits its effects.
    /// Returns the request that the instruction makes, if any. On a fault
    /// nothing has changed.
    pub fn exec(&mut self, instruction: u32) -> (r: Result<Option<Request>, Fault>)
        ensures
            match executed(old(self)@, instruction) {
                Ok((m, request)) => r == Ok::<Option<Request>, Fault>(request) && final(self)@ == m,
                Err(f) => r == Err::<Option<Request>, Fault>(f) && final(self)@ == old(self)@,
            },
    {
        proof {
            reveal(instruction_effects);
        }
        if predicated(instruction) && self.exec_mask == 0 {
            return Ok(None);
        }
        let entry: u64 = self.pc;
        let plan = match classify(instruction) {
            None => Err(Fault::UnsupportedInstruction(instruction)),
            Some(Family::SMEM) => self.smem(instruction),
            Some(Family::SOP1) => self.sop1(instruction),
            Some(Family::SOPC) => self.sopc(instruction),
            Some(Family::SOPP) => self.sopp(instruction),
            Some(Family::SOPK) => self.sopk(instruction),
            Some(Family::SOP2) => self.sop2(instruction),
            Some(Family::VOPP) => self.vopp(instruction),
            Some(Family::VOP1) => self.vop1(instruction),
            Some(Family::VOPD) => self.vopd(instruction),
            Some(Family::VOPC) => self.vopc_family(instruction),
            Some(Family::VOP2) => self.vop2(instruction),
            Some(Family::VOP3) => self.vop3(instruction),
            Some(Family::LDS) => self.lds_family(instruction),
            Some(Family::GLOBAL) => self.global(instruction),
        };
        match plan {
            Err(f) => {
                self.pc = entry;
                Err(f)
            },
            Ok(fx) => {
                self.commit(fx);
                match fx.next {
                    Next::Continue => Ok(None),
                    Next::Ask(request, _) => Ok(Some(request)),
                }
            },
        }
    }

    /// Fetches and executes one word.
    pub fn step(&mut self) -> (r: Result<Option<Status>, Fault>)
        ensures
            match step(old(self)@) {
                Ok((m, status)) => r == Ok::<Option<Status>, Fault>(status) && final(self)@ == m,
                Err(f) => r == Err::<Option<Status>, Fault>(f) && final(self)@ == old(self)@,
            },
    {
        if self.pc >= self.prg.len() as u64 {
            return Err(Fault::ProgramEnd);
        }
        let at: u64 = self.pc;
        let word: u32 = self.prg[at as usize];
        self.pc = at + 1;
        if word == END_PRG {
            Ok(Some(Status::Halted))
        } else if noop(word) {
            Ok(None)
        } else {
            match self.exec(word) {
                Err(f) => {
                    self.pc = at;
                    Err(f)
                },
                Ok(None) => Ok(None),
                Ok(Some(request)) => Ok(Some(Status::Waiting(request))),
            }
        }
    }

    /// Steps until the program halts, asks for something or faults, but for
    /// no more than `budget` instructions.
    pub fn run_for(&mut self, budget: u64) -> (r: Result<Status, Fault>)
        ensures
            (final(self)@, r) == run(old(self)@, budget as nat),
            r matches Ok(Status::Waiting(request)) ==> waits_for(final(self)@, request),
    {
        let mut left: u64 = budget;
        let ghost start = self@;
        loop
            invariant
                start == old(self)@,
                run(start, budget as nat) == run(self@, left as nat),
            decreases left,
        {
            let ghost now = self@;
            if left == 0 {
                return Err(Fault::Budget);
            }
            match self.step() {
                Err(f) => {
                    return Err(f);
                },
                Ok(Some(status)) => {
                    proof {
                        lemma_step_waits(now);
                        assert(step(now) == Ok::<(Machine, Option<Status>), Fault>(
                            (self@, Some(status)),
                        ));
                    }
                    return Ok(status);
                },
                Ok(None) => {
                    left = left - 1;
                },
            }
        }
    }

    /// Runs a program from its first word: sets the program counter and the
    /// vector condition code to zero and the execution mask to one, copies
    /// the program, and steps until the terminator, a request or a fault.
    pub fn interpret(&mut self, prg: &Vec<u32>) -> (r: Result<Status, Fault>)
        ensures
            (final(self)@, r) == run(started(old(self)@, prg@), BUDGET as nat),
            r matches Ok(Status::Waiting(request)) ==> waits_for(final(self)@, request),
    {
        let mut copy: Vec<u32> = Vec::new();
        let mut i: usize = 0;
        while i < prg.len()
            invariant
                i <= prg.len(),
                copy@ == prg@.subrange(0, i as int),
            decreases prg.len() - i,
        {
            copy.push(prg[i]);
            i = i + 1;
            assert(copy@ =~= prg@.subrange(0, i as int));
        }
        assert(copy@ =~= prg@);
        self.pc = 0;
        self.vcc.assign(0u32);
        self.exec_mask = 1;
        self.prg = copy;
        self.pending = Pending::Idle;
        self.run_for(BUDGET)
    }

    /// Commits the reply to the pending request.
    pub fn deliver(&mut self, reply: Reply) -> (r: Result<Option<Request>, Fault>)
        ensures
            match delivered(old(self)@, reply) {
                Ok((m, request)) => r == Ok::<Option<Request>, Fault>(request) && final(self)@ == m,
                Err(f) => r == Err::<Option<Request>, Fault>(f) && final(self)@ == old(self)@,
            },
    {
        match (self.pending, reply) {
            (Pending::Vector(i), Reply::Value(v)) => {
                if i < VGPR_COUNT {
                    let (lo, _) = split_words(v);
                    self.vec_reg.set(i, lo);
                    self.pending = Pending::Idle;
                    Ok(None)
                } else {
                    Err(Fault::UnexpectedReply)
                }
            },
            (Pending::VectorPair(i), Reply::Value(v)) => {
                if i < VGPR_COUNT - 1 {
                    self.vec_reg.write64(i, v);
                    self.pending = Pending::Idle;
                    Ok(None)
                } else {
                    Err(Fault::UnexpectedReply)
                }
            },
            (Pending::VectorThen(i, call, j), Reply::Value(v)) => {
                if i < VGPR_COUNT {
                    let (lo, _) = split_words(v);
                    self.vec_reg.set(i, lo);
                    self.pending = Pending::Vector(j);
                    Ok(Some(Request::Float(call)))
                } else {
                    Err(Fault::UnexpectedReply)
                }
            },
            (Pending::Scalars(first, n), Reply::Data(d)) => {
                if first <= SGPR_COUNT && n <= SGPR_COUNT - first && d.len() == 4 * n {
                    let ghost before = self@;
                    let mut k: usize = 0;
                    assert(self@.sgpr =~= filled(before.sgpr, first as int, 0, d@));
                    while k < n
                        invariant
                            k <= n,
                            first + n <= SGPR_COUNT,
                            d@.len() == 4 * n,
                            self@ == (Machine {
                                sgpr: filled(before.sgpr, first as int, k as int, d@),
                                ..before
                            }),
                        decreases n - k,
                    {
                        let w: u32 = word_of(&d, 4 * k);
                        self.scalar_reg[first + k] = w;
                        k = k + 1;
                        assert(self@.sgpr =~= filled(before.sgpr, first as int, k as int, d@));
                    }
                    self.pending = Pending::Idle;
                    Ok(None)
                } else {
                    Err(Fault::UnexpectedReply)
                }
            },
            (Pending::Vectors(first, n), Reply::Data(d)) => {
                if first <= VGPR_COUNT && n <= VGPR_COUNT - first && d.len() == 4 * n {
                    let ghost before = self@;
                    let mut k: usize = 0;
                    proof {
                        self.vec_reg.lemma_shape();
                        assert(filled(before.vgpr[0], first as int, 0, d@) =~= before.vgpr[0]);
                        assert(self@.vgpr =~= before.vgpr.update(
                            0,
                            filled(before.vgpr[0], first as int, 0, d@),
                        ));
                    }
                    while k < n
                        invariant
                            k <= n,
                            first + n <= VGPR_COUNT,
                            d@.len() == 4 * n,
                            before.wf(),
                            self@ == (Machine {
                                vgpr: before.vgpr.update(
                                    0,
                                    filled(before.vgpr[0], first as int, k as int, d@),
                                ),
                                ..before
                            }),
                        decreases n - k,
                    {
                        let w: u32 = word_of(&d, 4 * k);
                        self.vec_reg.set(first + k, w);
                        k = k + 1;
                        assert(filled(before.vgpr[0], first as int, k as int, d@) =~= filled(
                            before.vgpr[0],
                            first as int,
                            k - 1,
                            d@,
                        ).update(first + k - 1, w));
                        assert(self@.vgpr =~= before.vgpr.update(
                            0,
                            filled(before.vgpr[0], first as int, k as int, d@),
                        ));
                    }
                    self.pending = Pending::Idle;
                    Ok(None)
                } else {
                    Err(Fault::UnexpectedReply)
                }
            },
            (Pending::Narrow(i, bytes, signed), Reply::Data(d)) => {
                if i < VGPR_COUNT && d.len() == bytes && 1 <= bytes && bytes <= 2 {
                    let v: u32 = narrow(&d, signed);
                    self.vec_reg.set(i, v);
                    self.pending = Pending::Idle;
                    Ok(None)
                } else {
                    Err(Fault::UnexpectedReply)
                }
            },
            (Pending::Store, Reply::Stored) => {
                self.pending = Pending::Idle;
                Ok(None)
            },
            _ => Err(Fault::UnexpectedReply),
        }
    }

    /// Hands the reply to the request that the machine waits for, and goes
    /// on with the program.
    pub fn resume(&mut self, reply: Reply) -> (r: Result<Status, Fault>)
        ensures
            (final(self)@, r) == resumed(old(self)@, reply),
            in_range(old(self)@.pending) ==> (r matches Ok(Status::Waiting(request))
                ==> waits_for(final(self)@, request)),
    {
        match self.deliver(reply) {
            Err(f) => Err(f),
            Ok(Some(request)) => Ok(Status::Waiting(request)),
            Ok(None) => self.run_for(BUDGET),
        }
    }
}

} // verus!
