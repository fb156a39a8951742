use remu::{cls_i32, clz_i32_u32, Register, Status, _helper_test_cpu, CPU, END_PRG};

fn halt(cpu: &mut CPU, prg: &Vec<u32>) {
    assert_eq!(cpu.interpret(prg), Ok(Status::Halted));
}

#[test]
fn test_write_to_sdst_sgpr() {
    let mut cpu = _helper_test_cpu("test_write_to_sdst_sgpr");
    cpu.write_to_sdst(10, 200).unwrap();
    assert_eq!(cpu.scalar_reg[10], 200);
}

#[test]
fn test_write_to_sdst_vcclo() {
    let mut cpu = _helper_test_cpu("test_write_to_sdst_sgpr");
    let val = 0b1011101011011011111011101111;
    cpu.write_to_sdst(106, val).unwrap();
    assert_eq!(*cpu.vcc, 1);
}

#[test]
fn test_clz_i32_u32() {
    assert_eq!(clz_i32_u32(0x00000000), 0xffffffff);
    assert_eq!(clz_i32_u32(0x0000cccc), 16);
    assert_eq!(clz_i32_u32(0xffff3333), 0);
    assert_eq!(clz_i32_u32(0x7fffffff), 1);
    assert_eq!(clz_i32_u32(0x80000000), 0);
    assert_eq!(clz_i32_u32(0xffffffff), 0);
}

#[test]
fn test_cls_i32() {
    assert_eq!(cls_i32(0x00000000), 0xffffffff);
    assert_eq!(cls_i32(0x0000cccc), 16);
    assert_eq!(cls_i32(0xffff3333), 16);
    assert_eq!(cls_i32(0x7fffffff), 1);
    assert_eq!(cls_i32(0x80000000), 1);
}

#[test]
fn test_s_mov_b64() {
    let mut cpu = _helper_test_cpu("sop1");
    cpu.scalar_reg.write64(16, 5236523008);
    halt(&mut cpu, &vec![0xBE880110, END_PRG]);
    assert_eq!(cpu.scalar_reg.read64(8), 5236523008)
}

#[test]
fn test_s_mov_b32() {
    let mut cpu = _helper_test_cpu("s_mov_b32");
    cpu.scalar_reg[15] = 42;
    halt(&mut cpu, &vec![0xbe82000f, END_PRG]);
    assert_eq!(cpu.scalar_reg[2], 42);
}

#[test]
fn test_s_bitset0_b32() {
    [
        [
            0b11111111111111111111111111111111,
            0b00000000000000000000000000000001,
            0b11111111111111111111111111111101,
        ],
        [
            0b11111111111111111111111111111111,
            0b00000000000000000000000000000010,
            0b11111111111111111111111111111011,
        ],
    ]
    .iter()
    .for_each(|[a, b, ret]| {
        let mut cpu = _helper_test_cpu("sop1");
        cpu.scalar_reg[20] = *a;
        cpu.scalar_reg[10] = *b;
        halt(&mut cpu, &vec![0xBE94100A, END_PRG]);
        assert_eq!(cpu.scalar_reg[20], *ret);
    });
}

#[test]
fn test_s_not_b32() {
    [[0, 4294967295, 1], [1, 4294967294, 1], [u32::MAX, 0, 0]]
        .iter()
        .for_each(|[a, ret, scc]| {
            let mut cpu = _helper_test_cpu("sop1");
            cpu.scalar_reg[10] = *a;
            halt(&mut cpu, &vec![0xBE8A1E0A, END_PRG]);
            assert_eq!(cpu.scalar_reg[10], *ret);
            assert_eq!(cpu.scc, *scc);
        });
}

#[test]
fn test_cmp_zero_extend() {
    let mut cpu = _helper_test_cpu("sopk");
    cpu.scalar_reg[20] = 0xcd14;
    halt(&mut cpu, &vec![0xB494CD14, END_PRG]);
    assert_eq!(cpu.scc, 1);

    halt(&mut cpu, &vec![0xB194CD14, END_PRG]);
    assert_eq!(cpu.scc, 0);
}

#[test]
fn test_cmp_sign_extend() {
    let mut cpu = _helper_test_cpu("sopk");
    cpu.scalar_reg[6] = 0x2db4;
    halt(&mut cpu, &vec![0xB1862DB4, END_PRG]);
    assert_eq!(cpu.scc, 1);

    halt(&mut cpu, &vec![0xB1862DB4, END_PRG]);
    assert_eq!(cpu.scc, 1);
}

#[test]
fn test_s_add_u32() {
    [
        [10, 20, 30, 0],
        [u32::MAX, 10, 9, 1],
        [u32::MAX, 0, u32::MAX, 0],
    ]
    .iter()
    .for_each(|[a, b, expected, scc]| {
        let mut cpu = _helper_test_cpu("sop2");
        cpu.scalar_reg[2] = *a;
        cpu.scalar_reg[6] = *b;
        halt(&mut cpu, &vec![0x80060206, END_PRG]);
        assert_eq!(cpu.scalar_reg[6], *expected);
        assert_eq!(cpu.scc, *scc);
    });
}

#[test]
fn test_s_addc_u32() {
    [
        [10, 20, 31, 1, 0],
        [10, 20, 30, 0, 0],
        [u32::MAX, 10, 10, 1, 1],
    ]
    .iter()
    .for_each(|[a, b, expected, scc_before, scc_after]| {
        let mut cpu = _helper_test_cpu("sop2");
        cpu.scc = *scc_before;
        cpu.scalar_reg[7] = *a;
        cpu.scalar_reg[3] = *b;
        halt(&mut cpu, &vec![0x82070307, END_PRG]);
        assert_eq!(cpu.scalar_reg[7], *expected);
        assert_eq!(cpu.scc, *scc_after);
    });
}

#[test]
fn test_s_add_i32() {
    [[-10, 20, 10, 0], [i32::MAX, 1, -2147483648, 1]]
        .iter()
        .for_each(|[a, b, expected, scc]| {
            let mut cpu = _helper_test_cpu("sop2");
            cpu.scalar_reg[14] = *a as u32;
            cpu.scalar_reg[10] = *b as u32;
            halt(&mut cpu, &vec![0x81060E0A, END_PRG]);
            assert_eq!(cpu.scalar_reg[6], *expected as u32);
            assert_eq!(cpu.scc, *scc as u32);
        });
}

#[test]
fn test_s_sub_i32() {
    [[-10, 20, -30, 0], [i32::MAX, -1, -2147483648, 1]]
        .iter()
        .for_each(|[a, b, expected, scc]| {
            let mut cpu = _helper_test_cpu("sop2");
            cpu.scalar_reg[13] = *a as u32;
            cpu.scalar_reg[8] = *b as u32;
            halt(&mut cpu, &vec![0x818C080D, END_PRG]);
            assert_eq!(cpu.scalar_reg[12], *expected as u32);
            assert_eq!(cpu.scc, *scc as u32);
        });
}

#[test]
fn test_s_lshl_b32() {
    [[20, 40, 1], [0, 0, 0]]
        .iter()
        .for_each(|[a, expected, scc]| {
            let mut cpu = _helper_test_cpu("sop2");
            cpu.scalar_reg[15] = *a as u32;
            halt(&mut cpu, &vec![0x8408810F, END_PRG]);
            assert_eq!(cpu.scalar_reg[8], *expected as u32);
            assert_eq!(cpu.scc, *scc as u32);
        });
}

#[test]
fn test_s_lshl_b64() {
    let mut cpu = _helper_test_cpu("sop2");
    cpu.scalar_reg.write64(2, u64::MAX - 30);
    halt(&mut cpu, &vec![0x84828202, END_PRG]);
    assert_eq!(cpu.scalar_reg[2], 4294967172);
    assert_eq!(cpu.scalar_reg[3], 4294967295);
    assert_eq!(cpu.scc, 1);
}

#[test]
fn test_s_ashr_i32() {
    let mut cpu = _helper_test_cpu("sop2");
    cpu.scalar_reg[2] = 36855;
    halt(&mut cpu, &vec![0x86039F02, END_PRG]);
    assert_eq!(cpu.scalar_reg[3], 0);
    assert_eq!(cpu.scc, 0);
}

#[test]
fn test_s_min_i32() {
    let mut cpu = _helper_test_cpu("sop2");
    cpu.scalar_reg[2] = -42i32 as u32;
    cpu.scalar_reg[3] = -92i32 as u32;
    halt(&mut cpu, &vec![0x89020203, END_PRG]);
    assert_eq!(cpu.scalar_reg[2], -92i32 as u32);
    assert_eq!(cpu.scc, 1);
}

#[test]
fn test_s_mul_hi_u32() {
    [[u32::MAX, 10, 9], [u32::MAX / 2, 4, 1]]
        .iter()
        .for_each(|[a, b, expected]| {
            let mut cpu = _helper_test_cpu("sop2");
            cpu.scalar_reg[0] = *a;
            cpu.scalar_reg[8] = *b;
            halt(&mut cpu, &vec![0x96810800, END_PRG]);
            assert_eq!(cpu.scalar_reg[1], *expected);
        });
}

#[test]
fn test_s_mul_hi_i32() {
    [[(u64::MAX) as i32, (u64::MAX / 2) as i32, 0], [2, -2, -1]]
        .iter()
        .for_each(|[a, b, expected]| {
            let mut cpu = _helper_test_cpu("sop2");
            cpu.scalar_reg[0] = *a as u32;
            cpu.scalar_reg[8] = *b as u32;
            halt(&mut cpu, &vec![0x97010800, END_PRG]);
            assert_eq!(cpu.scalar_reg[1], *expected as u32);
        });
}

#[test]
fn test_s_mul_i32() {
    [[40, 2, 80], [-10, -10, 100]]
        .iter()
        .for_each(|[a, b, expected]| {
            let mut cpu = _helper_test_cpu("sop2");
            cpu.scalar_reg[0] = *a as u32;
            cpu.scalar_reg[6] = *b as u32;
            halt(&mut cpu, &vec![0x96000600, END_PRG]);
            assert_eq!(cpu.scalar_reg[0], *expected as u32);
        });
}

#[test]
fn test_s_bfe_u64() {
    [
        [2, 4, 2, 0],
        [800, 400, 32, 0],
        [-10i32 as u32, 3, 246, 0],
        [u32::MAX, u32::MAX, 255, 0],
    ]
    .iter()
    .for_each(|[a_lo, a_hi, ret_lo, ret_hi]| {
        println!("{a_lo} {a_hi}");
        let mut cpu = _helper_test_cpu("sop2");
        cpu.scalar_reg[6] = *a_lo;
        cpu.scalar_reg[7] = *a_hi;
        halt(&mut cpu, &vec![0x940cff06, 524288, END_PRG]);
        assert_eq!(cpu.scalar_reg[12], *ret_lo);
        assert_eq!(cpu.scalar_reg[13], *ret_hi);
    });
}

#[test]
fn test_s_bfe_i64() {
    [
        [131073, 0, 1, 0, 0x100000],
        [-2, 0, -2, -1, 524288],
        [2, 0, 2, 0, 524288],
    ]
    .iter()
    .for_each(|[a_lo, a_hi, ret_lo, ret_hi, shift]| {
        let mut cpu = _helper_test_cpu("sop2");
        cpu.scalar_reg[6] = *a_lo as u32;
        cpu.scalar_reg[7] = *a_hi as u32;
        halt(&mut cpu, &vec![0x948cff06, *shift as u32, END_PRG]);
        assert_eq!(cpu.scalar_reg[12], *ret_lo as u32);
        assert_eq!(cpu.scalar_reg[13], *ret_hi as u32);
    });
}

#[test]
fn test_s_bfe_u32() {
    [
        [67305985, 2],
        [0b100000000110111111100000001, 0b1111111],
        [0b100000000100000000000000001, 0b0],
        [0b100000000111000000000000001, 0b10000000],
        [0b100000000111111111100000001, 0b11111111],
    ]
    .iter()
    .for_each(|[a, ret]| {
        let mut cpu = _helper_test_cpu("sop2");
        cpu.scalar_reg[0] = *a;
        halt(&mut cpu, &vec![0x9303FF00, 0x00080008, END_PRG]);
        assert_eq!(cpu.scalar_reg[3], *ret);
    });
}
