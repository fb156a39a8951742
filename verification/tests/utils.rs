use remu::sign_ext;

#[test]
fn test_custom_signed_bits() {
    assert_eq!(sign_ext(0b000000000000000101000, 21), 40);
    assert_eq!(sign_ext(0b111111111111111011000, 21), -40);
    assert_eq!(sign_ext(0b000000000000000000000, 21), 0);
    assert_eq!(sign_ext(0b111111111111111111111, 21), -1);
    assert_eq!(sign_ext(0b111000000000000000000, 21), -262144);
    assert_eq!(sign_ext(0b000111111111111111111, 21), 262143);

    assert_eq!(sign_ext(7608, 13), -584);
}

#[test]
fn test_parse_rdna3() {
    let instructions = remu::parse_rdna3(
        &"
<stdin>:	file format elf64-amdgpu

Disassembly of section .text:

0000000000001600 <E_4>:
	s_load_b64 s[0:1], s[0:1], null                            // 000000001600: F4040000 F8000000
	v_dual_mov_b32 v0, 0 :: v_dual_mov_b32 v1, 4               // 000000001608: CA100080 00000084
"
        .as_bytes()
        .to_vec(),
    )
    .unwrap()
    .0;
    assert_eq!(instructions.len(), 4);
    let hexed = instructions
        .iter()
        .map(|i| format!("0x{:08x}", i))
        .collect::<Vec<String>>();
    assert_eq!(
        hexed,
        ["0xf4040000", "0xf8000000", "0xca100080", "0x00000084",]
    );
}
