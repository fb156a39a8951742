use remu::arith::{
    add_carry, add_signed, extract_field, extract_field_signed_wide, extract_field_wide,
    mul_high_signed, mul_high_unsigned, mul_low, reverse_bits, shift_right_signed, signed_median,
    sub_borrow, sub_signed, wrap_to_32,
};
use remu::decode::{classify, noop, predicated, Family};
use remu::dual::decode_dual;
use remu::ieee::{class_position, classify as classify_float, eq, lt, modify, Class, Format};
use remu::protocol::Pending;
use remu::{
    cls_i32, clz_i32_u32, dispatch_dim, nth, parse_rdna3, sign_ext, ALUSrc, Fault, Register, Reply, Request,
    Status, _helper_test_cpu, CPU, END_PRG,
};

struct Region {
    base: u64,
    bytes: Vec<u8>,
}

impl Region {
    fn read(&self, addr: u64, len: usize) -> Vec<u8> {
        let at = (addr - self.base) as usize;
        self.bytes[at..at + len].to_vec()
    }

    fn write(&mut self, addr: u64, len: usize, data: u128) {
        let at = (addr - self.base) as usize;
        for i in 0..len {
            self.bytes[at + i] = (data >> (8 * i)) as u8;
        }
    }
}

fn serve(cpu: &mut CPU, prg: &Vec<u32>, region: &mut Region) -> Vec<Request> {
    let mut seen = Vec::new();
    let mut status = cpu.interpret(prg).unwrap();
    loop {
        status = match status {
            Status::Halted => return seen,
            Status::Waiting(request) => {
                seen.push(request);
                match request {
                    Request::Load { addr, len } => {
                        cpu.resume(Reply::Data(region.read(addr, len))).unwrap()
                    }
                    Request::Store { addr, len, data } => {
                        region.write(addr, len, data);
                        cpu.resume(Reply::Stored).unwrap()
                    }
                    Request::Float(call) => panic!("no float unit for {:?}", call),
                }
            }
        };
    }
}

fn snapshot(cpu: &CPU) -> (Vec<u32>, Vec<u32>, u32, u32, u32, Vec<u8>) {
    (
        cpu.scalar_reg.to_vec(),
        (0..256).map(|i| cpu.vec_reg.get(i)).collect(),
        cpu.scc,
        *cpu.vcc,
        cpu.exec_mask,
        cpu.lds.clone(),
    )
}

#[test]
fn scalar_add_is_sum_modulo_two_to_32() {
    for (a, b) in [
        (0u32, 0u32),
        (10, 20),
        (u32::MAX, 10),
        (u32::MAX, u32::MAX),
        (0x8000_0000, 0x8000_0000),
        (0x7fff_ffff, 1),
    ] {
        let sum = a as u64 + b as u64;
        assert_eq!(add_carry(a, b, 0), ((sum % (1 << 32)) as u32, sum >= 1 << 32));
        let mut cpu = _helper_test_cpu("add");
        cpu.scalar_reg[2] = a;
        cpu.scalar_reg[6] = b;
        assert_eq!(cpu.interpret(&vec![0x80060206, END_PRG]), Ok(Status::Halted));
        assert_eq!(cpu.scalar_reg[6] as u64, sum % (1 << 32));
        assert_eq!(cpu.scc == 1, sum >= 1 << 32);
    }
}

#[test]
fn carry_in_is_a_third_addend() {
    assert_eq!(add_carry(10, 20, 1), (31, false));
    assert_eq!(add_carry(u32::MAX, 0, 1), (0, true));
    assert_eq!(add_carry(u32::MAX, u32::MAX, 1), (u32::MAX, true));
    assert_eq!(sub_borrow(0, 0, 1), (u32::MAX, true));
    assert_eq!(sub_borrow(5, 3, 1), (1, false));
    assert_eq!(sub_borrow(3, 3, 0), (0, false));
}

#[test]
fn signed_overflow_follows_the_signs() {
    for (a, b) in [
        (i32::MAX, 1),
        (i32::MIN, -1),
        (1, 1),
        (-10, 20),
        (i32::MIN, i32::MIN),
        (i32::MAX, i32::MAX),
        (0, 0),
        (-1, 1),
    ] {
        let (sum, flag) = add_signed(a as u32, b as u32);
        assert_eq!(sum, a.wrapping_add(b) as u32);
        assert_eq!(flag, a.checked_add(b).is_none());
        let same_sign = (a < 0) == (b < 0);
        assert_eq!(flag, same_sign && ((sum as i32) < 0) != (a < 0));
        let (diff, flag) = sub_signed(a as u32, b as u32);
        assert_eq!(diff, a.wrapping_sub(b) as u32);
        assert_eq!(flag, a.checked_sub(b).is_none());
    }
}

#[test]
fn leading_zero_and_sign_counts() {
    assert_eq!(clz_i32_u32(0), 0xffff_ffff);
    assert_eq!(clz_i32_u32(0x7fff_ffff), 1);
    assert_eq!(clz_i32_u32(0x8000_0000), 0);
    assert_eq!(clz_i32_u32(1), 31);
    assert_eq!(cls_i32(0), 0xffff_ffff);
    assert_eq!(cls_i32(0xffff_ffff), 0xffff_ffff);
    assert_eq!(cls_i32(0x0000_cccc), 16);
    assert_eq!(cls_i32(0xffff_3333), 16);
    assert_eq!(cls_i32(0xffff_fffe), 31);
    for x in [1u32, 2, 3, 0x1234, 0x8000_0001, 0x4000_0000, u32::MAX] {
        assert_eq!(clz_i32_u32(x), x.leading_zeros());
    }
}

#[test]
fn integer_helpers_agree_with_the_machine() {
    let samples = [
        0u32,
        1,
        2,
        0x7fff_ffff,
        0x8000_0000,
        0xffff_ffff,
        0x1234_5678,
        0xdead_beef,
    ];
    for a in samples {
        assert_eq!(reverse_bits(a), a.reverse_bits());
        for b in samples {
            assert_eq!(mul_low(a, b), a.wrapping_mul(b));
            assert_eq!(mul_high_unsigned(a, b), ((a as u64 * b as u64) >> 32) as u32);
            assert_eq!(
                mul_high_signed(a, b),
                ((a as i32 as i64 * b as i32 as i64) >> 32) as u32
            );
            assert_eq!(shift_right_signed(a, b), ((a as i32) >> (b & 31)) as u32);
        }
    }
    assert_eq!(wrap_to_32(-1), u32::MAX);
    assert_eq!(wrap_to_32(i64::MIN), 0);
    assert_eq!(wrap_to_32(0x1_0000_0005), 5);
    assert_eq!(signed_median(5, (-3i32) as u32, 9), 5);
    assert_eq!(signed_median(1, 1, 2), 1);
    assert_eq!(signed_median((-1i32) as u32, 0, 1), 0);
    assert_eq!(extract_field(0x0403_0201, 8, 8), 2);
    assert_eq!(extract_field(0xffff_ffff, 0, 32), 0);
    assert_eq!(extract_field(0xffff_ffff, 4, 31), 0x0fff_ffff);
    assert_eq!(extract_field_wide(u64::MAX, 0, 8), 255);
    assert_eq!(extract_field_signed_wide(0xfe, 0, 8), (-2i64) as u64);
    assert_eq!(extract_field_signed_wide(0xfe, 0, 0), 0);
    assert_eq!(extract_field_signed_wide(0x7e, 0, 8), 0x7e);
}

#[test]
fn bits_are_counted_from_the_top() {
    assert_eq!(nth(0x8000_0000, 0), 1);
    assert_eq!(nth(0x8000_0000, 1), 0);
    assert_eq!(nth(1, 31), 1);
    assert_eq!(nth(2, 30), 1);
    assert_eq!(nth(2, 31), 0);
}

#[test]
fn sign_extension_keeps_upper_bits_of_a_positive_number() {
    assert_eq!(sign_ext(0x1fff, 13), -1);
    assert_eq!(sign_ext(0x0fff, 13), 4095);
    assert_eq!(sign_ext(0x1000, 13), -4096);
    assert_eq!(sign_ext(1, 1), -1);
    assert_eq!(sign_ext(0x4000, 13), 0x4000);
    assert_eq!(sign_ext(1 << 62, 63), i64::MIN / 2);
}

#[test]
fn families_by_prefix() {
    assert_eq!(classify(0xF4040000), Some(Family::SMEM));
    assert_eq!(classify(0xBE880110), Some(Family::SOP1));
    assert_eq!(classify(0xBF060000), Some(Family::SOPC));
    assert_eq!(classify(END_PRG), Some(Family::SOPP));
    assert_eq!(classify(0xB494CD14), Some(Family::SOPK));
    assert_eq!(classify(0x80060206), Some(Family::SOP2));
    assert_eq!(classify(0xCC000000), Some(Family::VOPP));
    assert_eq!(classify(0x7E000280), Some(Family::VOP1));
    assert_eq!(classify(0xC8D000FF), Some(Family::VOPD));
    assert_eq!(classify(0x7C8802C1), Some(Family::VOPC));
    assert_eq!(classify(0x06000002), Some(Family::VOP2));
    assert_eq!(classify(0xD5030000), Some(Family::VOP3));
    assert_eq!(classify(0xD8340000), Some(Family::LDS));
    assert_eq!(classify(0xDC500000), Some(Family::GLOBAL));
    assert_eq!(classify(0xE0000000), None);
    assert_eq!(classify(0xCD000000), None);
    assert!(noop(0xbfb60003));
    assert!(noop(0xbf800000));
    assert!(noop(0xbf8fffff));
    assert!(!noop(0xbf900000));
    assert!(!noop(END_PRG));
    assert!(predicated(0x7E000280));
    assert!(predicated(0x06000002));
    assert!(predicated(0xD5030000));
    assert!(predicated(0xC8D000FF));
    assert!(!predicated(0x80060206));
    assert!(!predicated(0xF4040000));
    assert!(!predicated(0xCC000000));
    assert!(!predicated(0xD8340000));
    assert!(!predicated(0xDC500000));
}

#[test]
fn an_unknown_prefix_is_a_fault() {
    let mut cpu = _helper_test_cpu("decode");
    assert_eq!(
        cpu.interpret(&vec![0xE0000000, END_PRG]),
        Err(Fault::UnsupportedInstruction(0xE0000000))
    );
}

#[test]
fn inline_constants_at_each_width() {
    let mut cpu = _helper_test_cpu("resolver");
    let floats = [0.5f32, -0.5, 1.0, -1.0, 2.0, -2.0, 4.0, -4.0];
    for (i, x) in floats.iter().enumerate() {
        let word: u32 = cpu.val(240 + i).unwrap();
        assert_eq!(word, x.to_bits());
        let half: u16 = cpu.val(240 + i).unwrap();
        assert_eq!(half, half::f16::from_f32(*x).to_bits());
        let wide: u64 = cpu.val(240 + i).unwrap();
        assert_eq!(wide, (*x as f64).to_bits());
    }
    for code in 129..=192usize {
        let word: u32 = cpu.val(code).unwrap();
        assert_eq!(word, (code - 128) as u32);
    }
    for code in 193..=208usize {
        let word: u32 = cpu.val(code).unwrap();
        assert_eq!(word as i32, -((code - 192) as i32));
        let half: u16 = cpu.val(code).unwrap();
        assert_eq!(half as i16, -((code - 192) as i16));
        let wide: u64 = cpu.val(code).unwrap();
        assert_eq!(wide as i64, -((code - 192) as i64));
    }
    let zero: u32 = cpu.val(128).unwrap();
    assert_eq!(zero, 0);
    let null: u32 = cpu.val(124).unwrap();
    assert_eq!(null, 124);
}

#[test]
fn registers_and_special_sources() {
    let mut cpu = _helper_test_cpu("resolver");
    cpu.scalar_reg[104] = 7;
    cpu.scalar_reg[3] = 0x1234_5678;
    cpu.scalar_reg[4] = 0x9abc_def0;
    cpu.vec_reg.set(255, 9);
    cpu.vec_reg.write64(10, 0x1122_3344_5566_7788);
    cpu.exec_mask = 0xf0;
    cpu.write_to_sdst(106, 3).unwrap();
    let a: u32 = cpu.val(104).unwrap();
    assert_eq!(a, 7);
    let b: u64 = cpu.val(3).unwrap();
    assert_eq!(b, 0x9abc_def0_1234_5678);
    let c: u16 = cpu.val(3).unwrap();
    assert_eq!(c, 0x5678);
    let d: u32 = cpu.val(511).unwrap();
    assert_eq!(d, 9);
    let e: u64 = cpu.val(266).unwrap();
    assert_eq!(e, 0x1122_3344_5566_7788);
    let vcc: u32 = cpu.val(106).unwrap();
    assert_eq!(vcc, 1);
    let exec: u32 = cpu.val(126).unwrap();
    assert_eq!(exec, 0xf0);
    let wide: Result<u64, Fault> = cpu.val(104);
    assert_eq!(wide, Err(Fault::InvalidOperandCode(104)));
    let wide: Result<u64, Fault> = cpu.val(511);
    assert_eq!(wide, Err(Fault::InvalidOperandCode(511)));
    for code in [105usize, 107, 125, 127, 209, 239, 248, 254] {
        let r: Result<u32, Fault> = cpu.val(code);
        assert_eq!(r, Err(Fault::InvalidOperandCode(code as u32)));
    }
}

#[test]
fn a_literal_operand_moves_the_program_counter() {
    let mut cpu = _helper_test_cpu("literal");
    cpu.prg = vec![11, 22, 33];
    cpu.pc = 1;
    let a: u32 = cpu.val(255).unwrap();
    assert_eq!((a, cpu.pc), (22, 2));
    let b: u16 = cpu.val(255).unwrap();
    assert_eq!((b, cpu.pc), (33, 3));
    let c: Result<u32, Fault> = cpu.val(255);
    assert_eq!((c, cpu.pc), (Err(Fault::ProgramEnd), 3));
    let d: u32 = cpu.val(5).unwrap();
    assert_eq!((d, cpu.pc), (0, 3));
}

#[test]
fn scalar_destinations() {
    let mut cpu = _helper_test_cpu("sdst");
    cpu.write_to_sdst(104, 5).unwrap();
    assert_eq!(cpu.scalar_reg[104], 5);
    cpu.write_to_sdst(126, 0xabcd).unwrap();
    assert_eq!(cpu.exec_mask, 0xabcd);
    cpu.write_to_sdst(106, 2).unwrap();
    assert_eq!(*cpu.vcc, 0);
    let before = snapshot(&cpu);
    for code in [105u32, 107, 124, 125, 127, 255] {
        assert_eq!(
            cpu.write_to_sdst(code, 1),
            Err(Fault::InvalidOperandCode(code))
        );
    }
    assert_eq!(snapshot(&cpu), before);
}

#[test]
fn interpret_resets_the_controller_only() {
    let mut cpu = _helper_test_cpu("reset");
    cpu.pc = 77;
    cpu.scc = 1;
    cpu.exec_mask = 0;
    cpu.write_to_sdst(106, 1).unwrap();
    cpu.scalar_reg[9] = 99;
    cpu.vec_reg.set(9, 98);
    cpu.pending = Pending::Store;
    assert_eq!(cpu.interpret(&vec![END_PRG]), Ok(Status::Halted));
    assert_eq!(cpu.pc, 1);
    assert_eq!(*cpu.vcc, 0);
    assert_eq!(cpu.exec_mask, 1);
    assert_eq!(cpu.scc, 1);
    assert_eq!(cpu.scalar_reg[9], 99);
    assert_eq!(cpu.vec_reg.get(9), 98);
    assert_eq!(cpu.pending, Pending::Idle);
    assert_eq!(cpu.prg, vec![END_PRG]);
}

#[test]
fn a_no_op_changes_nothing() {
    let mut cpu = _helper_test_cpu("noop");
    cpu.scalar_reg[1] = 5;
    cpu.vec_reg.set(2, 6);
    cpu.scc = 1;
    cpu.lds = vec![1, 2, 3];
    let mut other = _helper_test_cpu("noop");
    other.scalar_reg[1] = 5;
    other.vec_reg.set(2, 6);
    other.scc = 1;
    other.lds = vec![1, 2, 3];
    assert_eq!(
        cpu.interpret(&vec![0xbfb60003, 0xbf800000, 0xbf8a1234, END_PRG]),
        Ok(Status::Halted)
    );
    assert_eq!(other.interpret(&vec![END_PRG]), Ok(Status::Halted));
    assert_eq!(snapshot(&cpu), snapshot(&other));
    assert_eq!(cpu.pc, 4);
}

#[test]
fn branches_move_the_program_counter_only_when_taken() {
    // s_mov_b32 s1, 1 is skipped by the branch, s_mov_b32 s2, 2 is not
    let skip = |branch: u32, scc: u32, vcc: u32, exec_zero: bool| -> (u32, u32, u64) {
        let mut cpu = _helper_test_cpu("branch");
        cpu.scc = scc;
        let mut prg = Vec::new();
        // v_cmp_eq_u32 vcc, vcc-valued compare is avoided: set vcc through s_mov to code 106
        prg.push(0xBE800080 | (106 << 16) | if vcc != 0 { 1 } else { 0 });
        if exec_zero {
            prg.push(0xBEFE0080);
        }
        prg.push(branch);
        prg.push(0xBE810081);
        prg.push(0xBE820082);
        prg.push(END_PRG);
        assert_eq!(cpu.interpret(&prg), Ok(Status::Halted));
        (cpu.scalar_reg[1], cpu.scalar_reg[2], cpu.pc)
    };
    assert_eq!(skip(0xBFA00001, 0, 0, false), (0, 2, 5));
    assert_eq!(skip(0xBFA10001, 0, 0, false), (0, 2, 5));
    assert_eq!(skip(0xBFA10001, 1, 0, false), (1, 2, 5));
    assert_eq!(skip(0xBFA20001, 1, 0, false), (0, 2, 5));
    assert_eq!(skip(0xBFA20001, 0, 0, false), (1, 2, 5));
    assert_eq!(skip(0xBFA30001, 0, 0, false), (0, 2, 5));
    assert_eq!(skip(0xBFA30001, 0, 1, false), (1, 2, 5));
    assert_eq!(skip(0xBFA40001, 0, 1, false), (0, 2, 5));
    assert_eq!(skip(0xBFA40001, 0, 0, false), (1, 2, 5));
    assert_eq!(skip(0xBFA50001, 0, 0, true), (0, 2, 6));
    assert_eq!(skip(0xBFA50001, 0, 0, false), (1, 2, 5));
    assert_eq!(skip(0xBFA60001, 0, 0, false), (0, 2, 5));
    assert_eq!(skip(0xBFA60001, 0, 0, true), (1, 2, 6));
    assert_eq!(skip(0xBFA00000, 0, 0, false), (1, 2, 5));
}

#[test]
fn a_backward_branch_loops() {
    // s1 counts down from 3: s_add_u32 s2, s2, 5; s_addk_i32 s1, -1; s_cmpk_eq_i32 s1, 0;
    // s_cbranch_scc0 -4
    let mut cpu = _helper_test_cpu("loop");
    cpu.scalar_reg[1] = 3;
    let prg = vec![
        0x80028502,
        0xB781FFFF,
        0xB1810000,
        0xBFA1FFFC,
        END_PRG,
    ];
    assert_eq!(cpu.interpret(&prg), Ok(Status::Halted));
    assert_eq!(cpu.scalar_reg[1], 0);
    assert_eq!(cpu.scalar_reg[2], 15);
    assert_eq!(cpu.pc, 5);
}

#[test]
fn a_branch_out_of_the_program_ends_it() {
    let mut cpu = _helper_test_cpu("branch");
    assert_eq!(
        cpu.interpret(&vec![0xBFA0FFF0, END_PRG]),
        Err(Fault::ProgramEnd)
    );
    assert_eq!(cpu.pc, 1u64.wrapping_sub(16));
}

#[test]
fn a_program_without_terminator_ends_in_a_fault() {
    let mut cpu = _helper_test_cpu("end");
    assert_eq!(cpu.interpret(&vec![]), Err(Fault::ProgramEnd));
    assert_eq!(cpu.interpret(&vec![0xBE810081]), Err(Fault::ProgramEnd));
    assert_eq!(cpu.scalar_reg[1], 1);
    assert_eq!(cpu.pc, 1);
    // a 64-bit encoding whose second word is missing
    let before = snapshot(&cpu);
    assert_eq!(cpu.interpret(&vec![0xD5030000]), Err(Fault::ProgramEnd));
    assert_eq!(snapshot(&cpu), before);
    assert_eq!(cpu.pc, 0);
}

#[test]
fn the_execution_mask_gates_vector_families_only() {
    let mut cpu = _helper_test_cpu("mask");
    cpu.vec_reg.set(0, 7);
    let prg = vec![
        0xBEFE0080, // s_mov_b32 exec, 0
        0x7e000281, // v_mov_b32 v0, 1
        0x06000002, // v_add_f32 v0, s2, v0
        0xD5030000, 0x00000006, // v_add_f32 v0, s0, s6
        0xC9100300, 0x00000080, // dual add and mov
        0x7c8802c1, // v_cmp_gt_i32
        0xBE810081, // s_mov_b32 s1, 1
        END_PRG,
    ];
    assert_eq!(cpu.interpret(&prg), Ok(Status::Halted));
    assert_eq!(cpu.vec_reg.get(0), 7);
    assert_eq!(*cpu.vcc, 0);
    assert_eq!(cpu.scalar_reg[1], 1);
    assert_eq!(cpu.exec_mask, 0);
}

#[test]
fn faults_leave_the_machine_as_it_was() {
    let cases: Vec<(Vec<u32>, Fault)> = vec![
        (vec![0x80800000, END_PRG], Fault::UnsupportedInstruction(0x80800000)),
        (vec![0x80000069, END_PRG], Fault::InvalidOperandCode(105)),
        (vec![0x806B0000, END_PRG], Fault::InvalidOperandCode(107)),
        (vec![0xBF100000, END_PRG], Fault::UnsupportedInstruction(0xBF100000)),
        (vec![0xBFAF0000, END_PRG], Fault::UnsupportedInstruction(0xBFAF0000)),
        (vec![0xB0800000, END_PRG], Fault::UnsupportedInstruction(0xB0800000)),
        (vec![0xD5038000, 0x00000006, END_PRG], Fault::UnsupportedModifier(0xD5038000)),
        (vec![0xD5030000, 0x08000006, END_PRG], Fault::UnsupportedModifier(0xD5030000)),
        (vec![0xD7000004, 0x20021F04, END_PRG], Fault::UnsupportedModifier(0xD7000004)),
        (vec![0xD7FF0000, 0x00000006, END_PRG], Fault::UnsupportedInstruction(0xD7FF0000)),
        (vec![0xD54A0000, 0x20000006, END_PRG], Fault::UnsupportedModifier(0xD54A0000)),
        (vec![0xCC008000, 0x00000006, END_PRG], Fault::UnsupportedModifier(0xCC008000)),
        (vec![0xCC7F0000, 0x00000006, END_PRG], Fault::UnsupportedInstruction(0xCC7F0000)),
        (vec![0xDBFC0000, 0x00000000, END_PRG], Fault::ScratchRange),
        (vec![0xD8000000, 0x00000000, END_PRG], Fault::UnsupportedInstruction(0xD8000000)),
        (vec![0xDC000000, 0x007C0000, END_PRG], Fault::UnsupportedInstruction(0xDC000000)),
        (vec![0xF4140000, 0xF8000000, END_PRG], Fault::UnsupportedInstruction(0xF4140000)),
        (vec![0x7E01FE80, END_PRG], Fault::UnsupportedInstruction(0x7E01FE80)),
        (vec![0x7c000000, END_PRG], Fault::UnsupportedInstruction(0x7c000000)),
        (vec![0x7E00FF00, END_PRG], Fault::UnsupportedInstruction(0x7E00FF00)),
    ];
    for (prg, fault) in cases {
        let mut cpu = _helper_test_cpu("fault");
        cpu.scalar_reg[0] = 3;
        cpu.vec_reg.set(0, 4);
        let mut prefixed = vec![0xBE810081];
        prefixed.extend(prg.iter());
        let mut reference = _helper_test_cpu("fault");
        reference.scalar_reg[0] = 3;
        reference.vec_reg.set(0, 4);
        assert_eq!(reference.interpret(&vec![0xBE810081, END_PRG]), Ok(Status::Halted));
        assert_eq!(cpu.interpret(&prefixed), Err(fault), "{:08x?}", prg);
        assert_eq!(snapshot(&cpu), snapshot(&reference), "{:08x?}", prg);
        assert_eq!(cpu.pc, 1, "{:08x?}", prg);
        assert_eq!(cpu.pending, Pending::Idle);
    }
}

#[test]
fn a_reply_must_answer_what_is_pending() {
    let mut cpu = _helper_test_cpu("reply");
    assert_eq!(cpu.resume(Reply::Value(1)), Err(Fault::UnexpectedReply));
    assert_eq!(cpu.resume(Reply::Stored), Err(Fault::UnexpectedReply));
    assert_eq!(cpu.resume(Reply::Data(vec![1])), Err(Fault::UnexpectedReply));
    // v_add_f32 v0, s2, v0 waits for a value
    let status = cpu.interpret(&vec![0x06000002, END_PRG]).unwrap();
    assert!(matches!(status, Status::Waiting(Request::Float(_))));
    let before = snapshot(&cpu);
    assert_eq!(cpu.resume(Reply::Stored), Err(Fault::UnexpectedReply));
    assert_eq!(cpu.resume(Reply::Data(vec![0; 4])), Err(Fault::UnexpectedReply));
    assert_eq!(snapshot(&cpu), before);
    assert_eq!(cpu.pending, Pending::Vector(0));
    assert_eq!(cpu.resume(Reply::Value(0x1_0000_0007)), Ok(Status::Halted));
    assert_eq!(cpu.vec_reg.get(0), 7);
    assert_eq!(cpu.pending, Pending::Idle);
    // a load waits for exactly its bytes
    cpu.vec_reg.set(0, 0);
    cpu.scalar_reg.write64(2, 0x1000);
    let status = cpu.interpret(&vec![0xDC500000, 0x01020000, END_PRG]).unwrap();
    assert_eq!(status, Status::Waiting(Request::Load { addr: 0x1000, len: 4 }));
    assert_eq!(cpu.resume(Reply::Data(vec![0; 3])), Err(Fault::UnexpectedReply));
    assert_eq!(cpu.resume(Reply::Value(3)), Err(Fault::UnexpectedReply));
    assert_eq!(cpu.resume(Reply::Data(vec![1, 2, 3, 4])), Ok(Status::Halted));
    assert_eq!(cpu.vec_reg.get(1), 0x0403_0201);
}

#[test]
fn float_requests_carry_the_operands() {
    let mut cpu = _helper_test_cpu("request");
    cpu.scalar_reg[2] = 0x4228_0000;
    cpu.vec_reg.set(0, 0x3f80_0000);
    let status = cpu.interpret(&vec![0x06000002, END_PRG]).unwrap();
    assert_eq!(
        status,
        Status::Waiting(Request::Float(remu::FloatCall {
            op: remu::FloatOp::Add,
            a: 0x4228_0000,
            b: 0x3f80_0000,
            c: 0
        }))
    );
    assert_eq!(cpu.pc, 1);
}

#[test]
fn a_dual_issue_of_two_float_sides_asks_twice() {
    let mut cpu = _helper_test_cpu("dual");
    cpu.vec_reg.set(23, 1);
    cpu.vec_reg.set(12, 2);
    cpu.vec_reg.set(13, 3);
    cpu.vec_reg.set(24, 4);
    let status = cpu
        .interpret(&vec![0xC8841917, 0x0C0C1B18, 0x3E000000, END_PRG])
        .unwrap();
    let first = remu::FloatCall { op: remu::FloatOp::MulAdd, a: 1, b: 0x3E000000, c: 2 };
    let second = remu::FloatCall { op: remu::FloatOp::MulAdd, a: 4, b: 0x3E000000, c: 3 };
    assert_eq!(status, Status::Waiting(Request::Float(first)));
    assert_eq!(cpu.pc, 3);
    assert_eq!(
        cpu.resume(Reply::Value(100)),
        Ok(Status::Waiting(Request::Float(second)))
    );
    assert_eq!(cpu.vec_reg.get(12), 100);
    assert_eq!(cpu.vec_reg.get(13), 3);
    assert_eq!(cpu.resume(Reply::Value(200)), Ok(Status::Halted));
    assert_eq!(cpu.vec_reg.get(13), 200);
}

#[test]
fn dual_destinations_differ_in_parity() {
    for x in 0u64..256 {
        for y in [0u64, 1, 63, 127] {
            let f = decode_dual((x << 56) | (y << 49));
            assert_eq!(f.vdstx as u64, x);
            assert_eq!(f.vdsty as u64 & 1, 1 - (x & 1));
            assert_eq!(f.vdsty as u64 >> 1, y);
        }
    }
}

#[test]
fn dual_integer_sides() {
    // X: v_dual_mov_b32 v2, s5    Y: v_dual_add_nc_u32 v5, v1, v3
    let mut cpu = _helper_test_cpu("dual");
    cpu.scalar_reg[5] = 55;
    cpu.vec_reg.set(1, u32::MAX);
    cpu.vec_reg.set(3, 3);
    let low: u32 = 0xC8000000 | (8 << 22) | (16 << 17) | 5;
    let high: u32 = (2 << 24) | (2 << 17) | (3 << 9) | 0x101;
    assert_eq!(cpu.interpret(&vec![low, high, END_PRG]), Ok(Status::Halted));
    assert_eq!(cpu.vec_reg.get(2), 55);
    assert_eq!(cpu.vec_reg.get(5), 2);
}

#[test]
fn scalar_loads_fill_consecutive_registers() {
    let mut region = Region { base: 0x1000, bytes: (0u8..=255).collect() };
    let mut cpu = _helper_test_cpu("smem");
    cpu.scalar_reg.write64(0, 0x1010);
    // s_load_b64 s[4:5], s[0:1], null
    let seen = serve(&mut cpu, &vec![0xF4040100, 0xF8000000, END_PRG], &mut region);
    assert_eq!(seen, vec![Request::Load { addr: 0x1010, len: 8 }]);
    assert_eq!(cpu.scalar_reg[4], 0x1312_1110);
    assert_eq!(cpu.scalar_reg[5], 0x1716_1514);
    assert_eq!(cpu.scalar_reg[6], 0);
    // s_load_b32 s7, s[0:1], -8 with the offset register s9
    cpu.scalar_reg[9] = 0x20;
    let seen = serve(&mut cpu, &vec![0xF40001C0, 0x121FFFF8, END_PRG], &mut region);
    assert_eq!(seen, vec![Request::Load { addr: 0x1028, len: 4 }]);
    assert_eq!(cpu.scalar_reg[7], 0x2b2a_2928);
    // sixteen words
    let seen = serve(&mut cpu, &vec![0xF4101400, 0xF8000000, END_PRG], &mut region);
    assert_eq!(seen, vec![Request::Load { addr: 0x1010, len: 64 }]);
    for i in 0..16u32 {
        let at = 0x10 + 4 * i;
        assert_eq!(
            cpu.scalar_reg[80 + i as usize],
            at | (at + 1) << 8 | (at + 2) << 16 | (at + 3) << 24
        );
    }
    // a run of registers that leaves the file
    assert_eq!(
        cpu.interpret(&vec![0xF4101680, 0xF8000000, END_PRG]),
        Err(Fault::InvalidOperandCode(90))
    );
    assert_eq!(
        cpu.interpret(&vec![0xF4000034, 0xF8000000, END_PRG]),
        Err(Fault::InvalidOperandCode(104))
    );
}

#[test]
fn global_loads_and_stores() {
    let mut region = Region { base: 0x2000, bytes: vec![0; 64] };
    region.bytes[0] = 0x80;
    region.bytes[1] = 0xff;
    region.bytes[8] = 0x7f;
    let mut cpu = _helper_test_cpu("global");
    cpu.scalar_reg.write64(2, 0x2000);
    cpu.vec_reg.set(0, 16);
    cpu.vec_reg.set(1, 0xaabb_ccdd);
    cpu.vec_reg.set(2, 0x1122_3344);
    cpu.vec_reg.set(3, 3);
    cpu.vec_reg.set(4, 4);
    // global_store_b128 v0, v[1:4], s[2:3]
    let seen = serve(&mut cpu, &vec![0xDC740000, 0x00020100, END_PRG], &mut region);
    assert_eq!(
        seen,
        vec![Request::Store {
            addr: 0x2010,
            len: 16,
            data: 0x0000_0004_0000_0003_1122_3344_aabb_ccdd
        }]
    );
    assert_eq!(&region.bytes[16..24], &[0xdd, 0xcc, 0xbb, 0xaa, 0x44, 0x33, 0x22, 0x11]);
    // global_store_b8 and b16 with an offset of -4 and of 4
    serve(&mut cpu, &vec![0xDC601FFC, 0x00020100, END_PRG], &mut region);
    assert_eq!(region.bytes[12], 0xdd);
    assert_eq!(region.bytes[13], 0);
    serve(&mut cpu, &vec![0xDC640004, 0x00020200, END_PRG], &mut region);
    assert_eq!(&region.bytes[20..24], &[0x44, 0x33, 0x22, 0x11]);
    // global_load_b96 v[10:12], v0, s[2:3]
    let seen = serve(&mut cpu, &vec![0xDC580000, 0x0A020000, END_PRG], &mut region);
    assert_eq!(seen, vec![Request::Load { addr: 0x2010, len: 12 }]);
    assert_eq!(cpu.vec_reg.get(10), 0xaabb_ccdd);
    assert_eq!(cpu.vec_reg.get(11), 0x1122_3344);
    assert_eq!(cpu.vec_reg.get(12), 3);
    assert_eq!(cpu.vec_reg.get(13), 0);
    // narrow loads through the vector address pair v[20:21]
    cpu.vec_reg.write64(20, 0x2000);
    serve(&mut cpu, &vec![0xDC400000, 0x1E7C0014, END_PRG], &mut region);
    assert_eq!(cpu.vec_reg.get(30), 0x80);
    serve(&mut cpu, &vec![0xDC440000, 0x1E7C0014, END_PRG], &mut region);
    assert_eq!(cpu.vec_reg.get(30), 0xffff_ff80);
    serve(&mut cpu, &vec![0xDC480000, 0x1E7C0014, END_PRG], &mut region);
    assert_eq!(cpu.vec_reg.get(30), 0xff80);
    serve(&mut cpu, &vec![0xDC4C0000, 0x1E7C0014, END_PRG], &mut region);
    assert_eq!(cpu.vec_reg.get(30), 0xffff_ff80);
    serve(&mut cpu, &vec![0xDC440008, 0x1E7C0014, END_PRG], &mut region);
    assert_eq!(cpu.vec_reg.get(30), 0x7f);
    // registers that leave the file
    assert_eq!(
        cpu.interpret(&vec![0xDC5C0000, 0xFD020000, END_PRG]),
        Err(Fault::InvalidOperandCode(256 + 253))
    );
    assert_eq!(
        cpu.interpret(&vec![0xDC500000, 0x00690000, END_PRG]),
        Err(Fault::InvalidOperandCode(105))
    );
}

#[test]
fn scratch_memory_grows_on_stores() {
    let mut cpu = _helper_test_cpu("lds");
    cpu.vec_reg.set(0, 0);
    cpu.vec_reg.set(1, 0x0403_0201);
    // ds_store_b32 v0, v1
    assert_eq!(
        cpu.interpret(&vec![0xD8340000, 0x00000100, END_PRG]),
        Ok(Status::Halted)
    );
    assert_eq!(cpu.lds, vec![1, 2, 3, 4, 0]);
    // a store that fits leaves the length alone: offset 0 needs a length above 4
    cpu.vec_reg.set(1, 0x0807_0605);
    assert_eq!(
        cpu.interpret(&vec![0xD8340000, 0x00000100, END_PRG]),
        Ok(Status::Halted)
    );
    assert_eq!(cpu.lds, vec![5, 6, 7, 8, 0]);
    // ds_store_b128 v0, v[1:4] at offset 8: the memory grows by the address plus five
    cpu.vec_reg.set(2, 0x2222_2222);
    cpu.vec_reg.set(3, 0x3333_3333);
    cpu.vec_reg.set(4, 0x4444_4444);
    assert_eq!(
        cpu.interpret(&vec![0xDB7C0008, 0x00000100, END_PRG]),
        Ok(Status::Halted)
    );
    assert!(cpu.lds.len() >= 24);
    assert_eq!(&cpu.lds[0..5], &[5, 6, 7, 8, 0]);
    assert_eq!(&cpu.lds[8..12], &[5, 6, 7, 8]);
    assert_eq!(&cpu.lds[12..16], &[0x22; 4]);
    assert_eq!(&cpu.lds[20..24], &[0x44; 4]);
    // ds_load_b128 v[10:13], v0 offset 8
    assert_eq!(
        cpu.interpret(&vec![0xDBFC0008, 0x0A000000, END_PRG]),
        Ok(Status::Halted)
    );
    assert_eq!(cpu.vec_reg.get(10), 0x0807_0605);
    assert_eq!(cpu.vec_reg.get(11), 0x2222_2222);
    assert_eq!(cpu.vec_reg.get(12), 0x3333_3333);
    assert_eq!(cpu.vec_reg.get(13), 0x4444_4444);
    // a load beyond the end
    cpu.vec_reg.set(0, cpu.lds.len() as u32 - 15);
    assert_eq!(
        cpu.interpret(&vec![0xDBFC0000, 0x0A000000, END_PRG]),
        Err(Fault::ScratchRange)
    );
    assert_eq!(
        cpu.interpret(&vec![0xDBFC0000, 0xFD000000, END_PRG]),
        Err(Fault::InvalidOperandCode(256 + 253))
    );
}

#[test]
fn float_comparisons_on_patterns_agree_with_the_numbers() {
    let samples = [
        0.0f32,
        -0.0,
        1.0,
        -1.0,
        0.5,
        1.0e-42,
        -1.0e-42,
        f32::MAX,
        f32::MIN,
        f32::MIN_POSITIVE,
        f32::INFINITY,
        f32::NEG_INFINITY,
        f32::NAN,
        -f32::NAN,
        f32::from_bits(0x7f80_0001),
    ];
    let cpu = _helper_test_cpu("compare");
    for a in samples {
        for b in samples {
            let (x, y) = (a.to_bits(), b.to_bits());
            assert_eq!(lt(Format::Single, x as u64, y as u64), a < b);
            assert_eq!(eq(Format::Single, x as u64, y as u64), a == b);
            assert_eq!(cpu.vopc(x, y, 17, 0), Ok(a < b));
            assert_eq!(cpu.vopc(x, y, 18, 0), Ok(a == b));
            assert_eq!(cpu.vopc(x, y, 20, 0), Ok(a > b));
            assert_eq!(cpu.vopc(x, y, 22, 0), Ok(a >= b));
            assert_eq!(cpu.vopc(x, y, 27, 0), Ok(!(a > b)));
            assert_eq!(cpu.vopc(x, y, 155, 0), Ok(!(a > b)));
            assert_eq!(cpu.vopc(x, y, 29, 0), Ok(a != b));
            assert_eq!(cpu.vopc(x, y, 30, 0), Ok(!(a < b)));
            assert_eq!(cpu.vopc(x, y, 158, 0), Ok(!(a < b)));
            let (p, q) = (a as f64, b as f64);
            assert_eq!(eq(Format::Double, p.to_bits(), q.to_bits()), p == q);
            assert_eq!(lt(Format::Double, p.to_bits(), q.to_bits()), p < q);
            let (h, k) = (half::f16::from_f32(a), half::f16::from_f32(b));
            assert_eq!(cpu.vopc(h.to_bits() as u32, k.to_bits() as u32, 13, 0), Ok(h != k));
        }
    }
}

#[test]
fn integer_comparisons() {
    let cpu = _helper_test_cpu("compare");
    let samples = [0u32, 1, 0x7fff, 0x8000, 0xffff, 0x1_0000, 0x7fff_ffff, 0x8000_0000, u32::MAX];
    for a in samples {
        for b in samples {
            assert_eq!(cpu.vopc(a, b, 52, 0), Ok((a as i16) > (b as i16)));
            assert_eq!(cpu.vopc(a, b, 65, 0), Ok((a as i16) < (b as i16)));
            assert_eq!(cpu.vopc(a, b, 57, 0), Ok((a as u16) < (b as u16)));
            assert_eq!(cpu.vopc(a, b, 58, 0), Ok((a as u16) == (b as u16)));
            assert_eq!(cpu.vopc(a, b, 60, 0), Ok((a as u16) > (b as u16)));
            assert_eq!(cpu.vopc(a, b, 61, 0), Ok((a as u16) != (b as u16)));
            assert_eq!(cpu.vopc(a, b, 62, 0), Ok((a as u16) >= (b as u16)));
            assert_eq!(cpu.vopc(a, b, 68, 0), Ok((a as i32) > (b as i32)));
            assert_eq!(cpu.vopc(a, b, 196, 0), Ok((a as i32) > (b as i32)));
            assert_eq!(cpu.vopc(a, b, 70, 0), Ok((a as i32) >= (b as i32)));
            assert_eq!(cpu.vopc(a, b, 193, 0), Ok((a as i32) < (b as i32)));
            assert_eq!(cpu.vopc(a, b, 73, 0), Ok(a < b));
            assert_eq!(cpu.vopc(a, b, 201, 0), Ok(a < b));
            assert_eq!(cpu.vopc(a, b, 74, 0), Ok(a == b));
            assert_eq!(cpu.vopc(a, b, 202, 0), Ok(a == b));
            assert_eq!(cpu.vopc(a, b, 76, 0), Ok(a > b));
            assert_eq!(cpu.vopc(a, b, 77, 0), Ok(a != b));
            assert_eq!(cpu.vopc(a, b, 205, 0), Ok(a != b));
        }
    }
    assert_eq!(cpu.vopc(1, 2, 0, 0xabc), Err(Fault::UnsupportedInstruction(0xabc)));
}

#[test]
fn each_class_has_its_own_bit() {
    let patterns: [(u32, Class, u32); 11] = [
        (0x7fc0_0000, Class::NaN, 1),
        (0xffc0_0001, Class::NaN, 1),
        (0x7f80_0001, Class::NaN, 1),
        (0xff80_0000, Class::NegativeInfinity, 2),
        (0xbf80_0000, Class::NegativeNormal, 3),
        (0x8000_0001, Class::NegativeDenormal, 4),
        (0x8000_0000, Class::NegativeZero, 5),
        (0x0000_0000, Class::PositiveZero, 6),
        (0x007f_ffff, Class::PositiveDenormal, 7),
        (0x0080_0000, Class::PositiveNormal, 8),
        (0x7f80_0000, Class::PositiveInfinity, 9),
    ];
    let cpu = _helper_test_cpu("class");
    for (bits, class, position) in patterns {
        assert_eq!(classify_float(Format::Single, bits as u64), class);
        assert_eq!(class_position(class), position);
        for bit in 0..32 {
            assert_eq!(cpu.vopc(bits, 1 << bit, 126, 0), Ok(bit == position));
        }
    }
}

#[test]
fn modifiers_flip_and_clear_the_sign() {
    let s = Format::Single;
    assert_eq!(modify(s, 0x3f80_0000, 0, 0b001, 0), 0xbf80_0000);
    assert_eq!(modify(s, 0x3f80_0000, 1, 0b001, 0), 0x3f80_0000);
    assert_eq!(modify(s, 0x3f80_0000, 1, 0b010, 0), 0xbf80_0000);
    assert_eq!(modify(s, 0x3f80_0000, 2, 0b100, 0), 0xbf80_0000);
    assert_eq!(modify(s, 0xbf80_0000, 2, 0, 0b100), 0x3f80_0000);
    assert_eq!(modify(s, 0x3f80_0000, 0, 0b001, 0b001), 0x3f80_0000);
    assert_eq!(modify(s, 0, 0, 0b001, 0), 0);
    assert_eq!(modify(s, 0x8000_0000, 0, 0b001, 0), 0x8000_0000);
    assert_eq!(modify(s, 0x7fc0_0000, 0, 0b001, 0), 0xffc0_0000);
    assert_eq!(modify(Format::Half, 0x3c00, 0, 1, 0), 0xbc00);
    assert_eq!(
        modify(Format::Double, 0x3ff0_0000_0000_0000, 0, 1, 0),
        0xbff0_0000_0000_0000
    );
}

#[test]
fn vector_integer_opcodes() {
    // VOP2 through the encoding: op << 25 | vdst << 17 | vsrc1 << 9 | src0
    let run = |op: u32, a: u32, b: u32, vcc: u32| -> (u32, u32) {
        let mut cpu = _helper_test_cpu("vop2");
        cpu.scalar_reg[1] = a;
        cpu.vec_reg.set(2, b);
        let prg = vec![
            0xBE800080 | (106 << 16) | vcc,
            (op << 25) | (3 << 17) | (2 << 9) | 1,
            END_PRG,
        ];
        assert_eq!(cpu.interpret(&prg), Ok(Status::Halted));
        (cpu.vec_reg.get(3), *cpu.vcc)
    };
    assert_eq!(run(1, 5, 6, 0), (5, 0));
    assert_eq!(run(1, 5, 6, 1), (6, 1));
    assert_eq!(run(9, (-3i32) as u32, 4, 0), ((-12i32) as u32, 0));
    assert_eq!(run(11, 0x10000, 0x10000, 0), (0, 0));
    assert_eq!(run(18, (-3i32) as u32, 4, 0), (4, 0));
    assert_eq!(run(19, (-3i32) as u32, 4, 0), (4, 0));
    assert_eq!(run(24, 33, 1, 0), (2, 0));
    assert_eq!(run(25, 1, 0x8000_0000, 0), (0x4000_0000, 0));
    assert_eq!(run(26, 1, 0x8000_0000, 0), (0xc000_0000, 0));
    assert_eq!(run(27, 0b1100, 0b1010, 0), (0b1000, 0));
    assert_eq!(run(28, 0b1100, 0b1010, 0), (0b1110, 0));
    assert_eq!(run(29, 0b1100, 0b1010, 0), (0b0110, 0));
    assert_eq!(run(32, u32::MAX, 0, 1), (0, 1));
    assert_eq!(run(32, 1, 2, 1), (4, 0));
    assert_eq!(run(33, 5, 3, 1), (1, 0));
    assert_eq!(run(33, 3, 3, 1), (u32::MAX, 1));
    assert_eq!(run(34, 3, 5, 1), (1, 1));
    assert_eq!(run(37, u32::MAX, 2, 0), (1, 0));
    assert_eq!(run(38, 1, 2, 0), (u32::MAX, 0));
    assert_eq!(run(39, 1, 2, 0), (1, 0));
}

#[test]
fn three_operand_integer_opcodes() {
    let run = |op: u32, a: u32, b: u32, c: u32| -> u32 {
        let mut cpu = _helper_test_cpu("vop3");
        cpu.scalar_reg[1] = a;
        cpu.scalar_reg[2] = b;
        cpu.scalar_reg[3] = c;
        let prg = vec![0xD4000000 | (op << 16) | 9, (3 << 18) | (2 << 9) | 1, END_PRG];
        assert_eq!(cpu.interpret(&prg), Ok(Status::Halted), "op {}", op);
        cpu.vec_reg.get(9)
    };
    assert_eq!(run(522, (-3i32) as u32, 4, 2), (-10i32) as u32);
    assert_eq!(run(523, 0x10000, 0x10000, 7), 7);
    assert_eq!(run(541, (-3i32) as u32, 4, 2), 4);
    assert_eq!(run(544, (-3i32) as u32, 4, 2), 2);
    assert_eq!(run(528, 0x0403_0201, 8, 8), 2);
    assert_eq!(run(529, 0x8000_0000, 28, 8), 0xf8);
    assert_eq!(run(814, (-2i32) as u32, 0x2E8BA2E9, 0), u32::MAX);
    assert_eq!(run(826, 4, 0x8000_0000, 0), 0xf800_0000);
    assert_eq!(run(771, 0xffff, 2, 0), 1);
    assert_eq!(run(772, 1, 2, 0), 0xffff);
    assert_eq!(run(773, 0x100, 0x100, 0), 0);
    assert_eq!(run(824, 4, 0x1fff, 0), 0xfff0);
    assert_eq!(run(825, 4, 0x1fff, 0), 0x01ff);
    assert_eq!(run(576, 0b110, 0b011, 0b1000), 0b1101);
    assert_eq!(run(582, 1, 4, 3), 19);
    assert_eq!(run(597, u32::MAX, 1, 5), 5);
    assert_eq!(run(581, 0b110, 0b011, 1), 0b110);
    assert_eq!(run(583, 1, 2, 4), 48);
    assert_eq!(run(598, 1, 4, 1), 17);
    assert_eq!(run(599, 0b110, 0b011, 0b1000), 0b1010);
    assert_eq!(run(785, 0xaaaa_1234, 0xbbbb_5678, 0), 0x5678_1234);
    assert_eq!(run(812, 3, 5, 0), 15);
}

#[test]
fn carry_and_borrow_opcodes() {
    let run = |op: u32, sdst: u32, a: u32, b: u32, c: u32| -> (u32, u32, u32) {
        let mut cpu = _helper_test_cpu("vopsd");
        cpu.scalar_reg[1] = a;
        cpu.scalar_reg[2] = b;
        cpu.scalar_reg[3] = c;
        let prg = vec![
            0xD4000000 | (op << 16) | (sdst << 8) | 9,
            (3 << 18) | (2 << 9) | 1,
            END_PRG,
        ];
        assert_eq!(cpu.interpret(&prg), Ok(Status::Halted), "op {}", op);
        (cpu.vec_reg.get(9), *cpu.vcc, cpu.scalar_reg[50])
    };
    assert_eq!(run(288, 106, u32::MAX, 0, 3), (0, 1, 0));
    assert_eq!(run(288, 106, u32::MAX, 0, 2), (u32::MAX, 0, 0));
    assert_eq!(run(288, 50, u32::MAX, 1, 0), (0, 0, 1));
    assert_eq!(run(289, 106, 0, 0, 1), (u32::MAX, 1, 0));
    assert_eq!(run(764, 106, 5, 6, 7), (0, 0, 0));
    assert_eq!(run(766, 124, 0x10000, 0x10000, 7), (7, 0, 0));
    assert_eq!(run(768, 124, u32::MAX, 2, 0), (1, 0, 0));
    assert_eq!(run(769, 50, 1, 2, 0), (u32::MAX, 0, 1));
    let mut cpu = _helper_test_cpu("vopsd");
    assert_eq!(
        cpu.interpret(&vec![0xD6FE6A09, 0x000C0401, END_PRG]),
        Err(Fault::UnsupportedInstruction(0xD6FE6A09))
    );
    assert_eq!(
        cpu.interpret(&vec![0xD7007E09, 0x000C0401, END_PRG]),
        Err(Fault::InvalidOperandCode(126))
    );
}

#[test]
fn packed_sixteen_bit_opcodes() {
    let run = |op: u32, a: u32, b: u32| -> u32 {
        let mut cpu = _helper_test_cpu("vopp");
        cpu.scalar_reg[1] = a;
        cpu.scalar_reg[2] = b;
        let prg = vec![0xCC000000 | (op << 16) | 9, (2 << 9) | 1, END_PRG];
        assert_eq!(cpu.interpret(&prg), Ok(Status::Halted), "op {}", op);
        cpu.vec_reg.get(9)
    };
    assert_eq!(run(10, 0xffff_0001, 0x0001_0002), 0x0000_0003);
    assert_eq!(run(11, 0x0000_0001, 0x0001_0002), 0xffff_ffff);
    assert_eq!(run(1, 0x0100_0003, 0x0100_0005), 0x0000_000f);
    // opsel and opsel_hi choose, for each of the first two sources, the whole
    // register, its lower half or its upper half
    let ask = |op: u32, opsel: u32, opsel_hi: u32| -> remu::FloatCall {
        let mut cpu = _helper_test_cpu("vopp");
        cpu.scalar_reg[1] = 0x3f80_1111;
        cpu.scalar_reg[2] = 0x4000_2222;
        cpu.scalar_reg[3] = 0x4040_3333;
        let prg = vec![
            0xCC000000 | (op << 16) | (opsel << 11) | 9,
            (opsel_hi << 27) | (3 << 18) | (2 << 9) | 1,
            END_PRG,
        ];
        match cpu.interpret(&prg).unwrap() {
            Status::Waiting(Request::Float(call)) => call,
            other => panic!("{:?}", other),
        }
    };
    let call = |op, a, b, c| remu::FloatCall { op, a, b, c };
    let mix = remu::FloatOp::MulAddMix;
    assert_eq!(ask(32, 0b000, 0b00), call(mix, 0x3f80_1111, 0x4000_2222, 0x4040_3333));
    assert_eq!(ask(32, 0b111, 0b00), call(mix, 0x3f80_1111, 0x4000_2222, 0x4040_3333));
    assert_eq!(ask(32, 0b000, 0b01), call(mix, 0x1_0000_1111, 0x4000_2222, 0x4040_3333));
    assert_eq!(ask(32, 0b001, 0b01), call(mix, 0x1_0000_3f80, 0x4000_2222, 0x4040_3333));
    assert_eq!(ask(32, 0b000, 0b10), call(mix, 0x3f80_1111, 0x1_0000_2222, 0x4040_3333));
    assert_eq!(ask(32, 0b010, 0b10), call(mix, 0x3f80_1111, 0x1_0000_4000, 0x4040_3333));
    assert_eq!(ask(32, 0b111, 0b11), call(mix, 0x1_0000_3f80, 0x1_0000_4000, 0x4040_3333));
    assert_eq!(ask(32, 0b110, 0b11), call(mix, 0x1_0000_1111, 0x1_0000_4000, 0x4040_3333));
    assert_eq!(
        ask(33, 0b101, 0b01),
        call(remu::FloatOp::MulAddMixHalf, 0x1_0000_3f80, 0x4000_2222, 0x4040_3333)
    );
}

#[test]
fn scalar_opcodes_beside_the_arithmetic() {
    let run = |word: u32, a: u32, b: u32, scc: u32| -> (u32, u32) {
        let mut cpu = _helper_test_cpu("sop");
        cpu.scalar_reg[1] = a;
        cpu.scalar_reg[2] = b;
        cpu.scc = scc;
        assert_eq!(cpu.interpret(&vec![word, END_PRG]), Ok(Status::Halted));
        (cpu.scalar_reg[3], cpu.scc)
    };
    let sop2 = |op: u32| 0x80000000 | (op << 23) | (3 << 16) | (2 << 8) | 1;
    assert_eq!(run(sop2(10), 0x8000_0000, 33, 0), (0x4000_0000, 1));
    assert_eq!(run(sop2(12), 0x8000_0000, 1, 0), (0xc000_0000, 1));
    assert_eq!(run(sop2(19), 4, 5, 0), (4, 1));
    assert_eq!(run(sop2(19), 5, 4, 1), (4, 0));
    assert_eq!(run(sop2(20), (-1i32) as u32, 4, 0), (4, 0));
    assert_eq!(run(sop2(22), 0b1100, 0b1010, 0), (0b1000, 1));
    assert_eq!(run(sop2(22), 0b0100, 0b1010, 1), (0, 0));
    assert_eq!(run(sop2(24), 0, 0, 1), (0, 0));
    assert_eq!(run(sop2(26), 5, 5, 1), (0, 0));
    assert_eq!(run(sop2(34), 0b1100, 0b1010, 0), (0b0100, 1));
    assert_eq!(run(sop2(36), 0, u32::MAX, 1), (0, 0));
    assert_eq!(run(sop2(48), 7, 8, 1), (7, 1));
    assert_eq!(run(sop2(48), 7, 8, 0), (8, 0));
    assert_eq!(run(sop2(44), 0x10001, 0x10001, 1), (0x20001, 1));
    let sopc = |op: u32| 0xBF000000 | (op << 16) | (2 << 8) | 1;
    assert_eq!(run(sopc(2), (-1i32) as u32, 0, 0).1, 0);
    assert_eq!(run(sopc(4), (-1i32) as u32, 0, 0).1, 1);
    assert_eq!(run(sopc(6), 3, 3, 0).1, 1);
    assert_eq!(run(sopc(8), u32::MAX, 0, 0).1, 1);
    assert_eq!(run(sopc(9), 3, 3, 0).1, 1);
    assert_eq!(run(sopc(10), 3, 3, 1).1, 0);
    // SOPK on s3
    let sopk = |op: u32, simm: u32| 0xB0000000 | (op << 23) | (3 << 16) | simm;
    let on = |word: u32, s3: u32| -> (u32, u32) {
        let mut cpu = _helper_test_cpu("sopk");
        cpu.scalar_reg[3] = s3;
        assert_eq!(cpu.interpret(&vec![word, END_PRG]), Ok(Status::Halted));
        (cpu.scalar_reg[3], cpu.scc)
    };
    assert_eq!(on(sopk(0, 0xfffe), 9), ((-2i32) as u32, 0));
    assert_eq!(on(sopk(4, 0xffff), u32::MAX), (u32::MAX, 0));
    assert_eq!(on(sopk(5, 0xffff), 0), (0, 1));
    assert_eq!(on(sopk(15, 0x7fff), 0x7fff_ffff), (0x8000_7ffe, 1));
    assert_eq!(on(sopk(15, 0xffff), 0x8000_0000), (0x7fff_ffff, 1));
    assert_eq!(on(sopk(15, 0xffff), 5), (4, 0));
    assert_eq!(on(sopk(16, 0xfffd), 5), ((-15i32) as u32, 0));
}

#[test]
fn saved_execution_mask() {
    let run = |op: u32, sdst: u32, a: u32, mask: u32| -> (u32, u32, u32) {
        let mut cpu = _helper_test_cpu("saveexec");
        cpu.scalar_reg[1] = a;
        cpu.scalar_reg[2] = mask;
        let prg = vec![
            0xBEFE0002, // s_mov_b32 exec, s2
            0xBE800001 | (sdst << 16) | (op << 8),
            END_PRG,
        ];
        assert_eq!(cpu.interpret(&prg), Ok(Status::Halted));
        (cpu.scalar_reg[3], cpu.exec_mask, cpu.scc)
    };
    assert_eq!(run(32, 3, 0b1100, 0b1010), (0b1010, 0b1000, 1));
    assert_eq!(run(34, 3, 0b1100, 0b1010), (0b1010, 0b1110, 1));
    assert_eq!(run(48, 3, 0b1100, 0b1010), (0b1010, 0b0100, 1));
    assert_eq!(run(32, 3, 0b0100, 0b1010), (0b1010, 0, 0));
    // with the mask itself as destination the old value comes back
    assert_eq!(run(32, 126, 0b1100, 0b1010), (0, 0b1010, 1));
}

#[test]
fn register_pairs_are_low_word_first() {
    let mut cpu = _helper_test_cpu("pairs");
    cpu.scalar_reg.write64(10, 0x1122_3344_5566_7788);
    assert_eq!(cpu.scalar_reg[10], 0x5566_7788);
    assert_eq!(cpu.scalar_reg[11], 0x1122_3344);
    assert_eq!(cpu.scalar_reg.read64(10), 0x1122_3344_5566_7788);
    cpu.vec_reg.write64(254, u64::MAX - 1);
    assert_eq!(cpu.vec_reg.get(254), u32::MAX - 1);
    assert_eq!(cpu.vec_reg.get(255), u32::MAX);
    assert_eq!(cpu.vec_reg.read_lane(1, 254), 0);
    cpu.vec_reg.write_lane(31, 255, 5);
    assert_eq!(cpu.vec_reg.read_lane(31, 255), 5);
    assert_eq!(cpu.vec_reg.get(255), u32::MAX);
}

#[test]
fn listings() {
    let parse = |text: &str| parse_rdna3(&text.as_bytes().to_vec());
    assert_eq!(parse(""), None);
    assert_eq!(parse("\n\n\n\n\n"), None);
    assert_eq!(parse("\n\n\n\n\nname"), None);
    assert_eq!(
        parse("\n\n\n\n\n0 <k>:"),
        Some((vec![], b"k".to_vec()))
    );
    assert_eq!(
        parse("1\n2\n3\n4\n5\naddr <a:b>\r\n0000000a\r\n+0000010 0000000G 123456789\tFFFFFFFF\n"),
        Some((vec![0xa, 0x10, 0xffff_ffff], b"ab".to_vec()))
    );
    assert_eq!(
        parse("1\n2\n3\n4\n5\n  x\n-0000001 0x000001 deadBEEF"),
        Some((vec![0xdead_beef], b"".to_vec()))
    );
    assert_eq!(
        parse("12345678\n2\n3\n4\n5\na b c\n"),
        Some((vec![], b"b".to_vec()))
    );
}

#[test]
fn a_program_that_goes_on_is_cut_off() {
    let mut cpu = _helper_test_cpu("budget");
    // s_add_u32 s2, s2, 1; s_branch -2
    cpu.prg = vec![0x80028102, 0xBFA0FFFE, END_PRG];
    assert_eq!(cpu.run_for(0), Err(Fault::Budget));
    assert_eq!((cpu.pc, cpu.scalar_reg[2]), (0, 0));
    assert_eq!(cpu.run_for(7), Err(Fault::Budget));
    assert_eq!((cpu.pc, cpu.scalar_reg[2]), (1, 4));
    assert_eq!(cpu.run_for(1000), Err(Fault::Budget));
    assert_eq!((cpu.pc, cpu.scalar_reg[2]), (1, 504));
    // a program that ends is not touched by the budget
    cpu.prg = vec![0x80028102, END_PRG];
    cpu.pc = 0;
    assert_eq!(cpu.run_for(2), Ok(Status::Halted));
    assert_eq!((cpu.pc, cpu.scalar_reg[2]), (2, 505));
}

fn by_the_standard_library(content: &str) -> Option<(Vec<u32>, Vec<u8>)> {
    let mut kernel = content.lines().skip(5);
    let name = kernel
        .nth(0)?
        .split(" ")
        .nth(1)?
        .replace(":", "")
        .replace("<", "")
        .replace(">", "");
    let instructions = kernel
        .map(|line| {
            line.split_whitespace()
                .filter(|p| u32::from_str_radix(p, 16).is_ok() && p.len() == 8)
                .collect::<Vec<&str>>()
        })
        .flatten()
        .map(|x| u32::from_str_radix(x, 16).unwrap())
        .collect::<Vec<u32>>();
    Some((instructions, name.into_bytes()))
}

#[test]
fn white_space_is_what_unicode_counts_as_such() {
    let parse = |text: &str| parse_rdna3(&text.as_bytes().to_vec());
    assert_eq!(
        parse("\n\n\n\n\nx y\n12345678\u{a0}\n"),
        Some((vec![0x12345678], b"y".to_vec()))
    );
    let spaces: Vec<char> = (0u32..0x3100)
        .filter_map(char::from_u32)
        .filter(|c| c.is_whitespace())
        .collect();
    assert_eq!(spaces.len(), 25);
    for c in &spaces {
        for text in [
            format!("1\n2\n3\n4\n5\nx y\n12345678{c}9abcdef0"),
            format!("1\n2\n3\n4\n5\nx y\n{c}12345678{c}{c}+bcdef0{c}"),
            format!("1\n2\n3\n4\n5\nx y\n 1234567{c} 89abcde{c}f0123456 "),
            format!("1\n2\n3\n4\n5\nx{c}y z{c}w\n0000000a{c}\n{c}0000000b"),
            format!("1{c}2\n3\n4\n5\n6 {c}<k>:\n\n0000000c"),
        ] {
            assert_eq!(parse(&text), by_the_standard_library(&text), "{:?}", text);
        }
    }
    // characters that are no white space keep a token together, also where
    // they share bytes with one that is
    for c in ['\u{2080}', '\u{200b}', '\u{180e}', '\u{a1}', '\u{84}', '\u{3001}', '\u{feff}', 'é'] {
        for text in [
            format!("1\n2\n3\n4\n5\nx y\n12345678{c}9abcdef0 00000001"),
            format!("1\n2\n3\n4\n5\nx y\n{c}12345678 1234{c} 00000002{c}"),
            format!("1\n2\n3\n4\n5\nx y\n1234{c}5 12345{c} 00000003"),
        ] {
            assert_eq!(parse(&text), by_the_standard_library(&text), "{:?}", text);
        }
    }
    for text in [
        "",
        "\n\n\n\n\n",
        "\n\n\n\n\nname",
        "\n\n\n\n\n0 <k>:",
        "1\n2\n3\n4\n5\naddr <a:b>\r\n0000000a\r\n+0000010 0000000G 123456789\tFFFFFFFF\n",
        "1\n2\n3\n4\n5\n  x\n-0000001 0x000001 deadBEEF",
        "1\r\n2\r\n3\r\n4\r\n5\r\na b\r\r\n0000000d\r0000000e\u{b}0000000f\u{c}00000010",
        "1\n2\n3\n4\n5\na b\r",
        "1\n2\n3\n4\n5\na \n00000011",
    ] {
        assert_eq!(parse(text), by_the_standard_library(text), "{:?}", text);
    }
}

#[test]
fn launch_dimensions() {
    assert_eq!(dispatch_dim(1, 1), 1);
    assert_eq!(dispatch_dim(2, 1), 2);
    assert_eq!(dispatch_dim(1, 2), 1);
    assert_eq!(dispatch_dim(2, 2), 3);
    assert_eq!(dispatch_dim(0, 0), 3);
    assert_eq!(dispatch_dim(0, 1), 2);
    assert_eq!(dispatch_dim(u32::MAX, u32::MAX), 3);
}
