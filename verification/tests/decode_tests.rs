use krun_vmm::decode::{
    allow_string_io_fallback, decode_mmio_access, gpr_name, is_legacy_prefix, merge_reg_bits,
    reg_bits, skip_modrm_address, ErrorKind, MmioAccessKind,
};

#[test]
fn test_legacy_prefix_detection() {
    assert!(is_legacy_prefix(0x66));
    assert!(is_legacy_prefix(0xF3));
    assert!(is_legacy_prefix(0x2E));
    assert!(!is_legacy_prefix(0x90));
}

#[test]
fn test_string_io_fallback_ports() {
    assert!(allow_string_io_fallback(0x3F8));
    assert!(allow_string_io_fallback(0x3FF));
    assert!(allow_string_io_fallback(0xE9));
    assert!(allow_string_io_fallback(0x80));
    assert!(allow_string_io_fallback(0x402));
    assert!(!allow_string_io_fallback(0x1234));
    assert!(!allow_string_io_fallback(0x400));
}

#[test]
fn test_gpr_name_bounds() {
    assert!(gpr_name(0).is_ok());
    assert!(gpr_name(15).is_ok());
    assert!(matches!(gpr_name(16), Err(err) if err == ErrorKind::InvalidInput));
}

#[test]
fn test_reg_bits_and_merge() {
    assert_eq!(reg_bits(0xA1B2, 1, false).unwrap(), 0xB2);
    assert_eq!(reg_bits(0xA1B2, 1, true).unwrap(), 0xA1);
    assert_eq!(reg_bits(0x1122_3344_5566_7788, 4, false).unwrap(), 0x5566_7788);

    assert_eq!(
        merge_reg_bits(0x1122_3344_5566_7788, 1, false, 0xAA).unwrap(),
        0x1122_3344_5566_77AA
    );
    assert_eq!(
        merge_reg_bits(0x1122_3344_5566_7788, 1, true, 0xBB).unwrap(),
        0x1122_3344_5566_BB88
    );
    assert_eq!(
        merge_reg_bits(0xFFFF_0000_FFFF_0000, 4, false, 0x1234_5678).unwrap(),
        0x0000_0000_1234_5678
    );

    assert!(matches!(reg_bits(0x12, 3, false), Err(err) if err == ErrorKind::InvalidInput));
    assert!(matches!(
        merge_reg_bits(0x12, 3, false, 0x34),
        Err(err) if err == ErrorKind::InvalidInput
    ));
}

#[test]
fn test_skip_modrm_address() {
    // mod=00, rm=101 => disp32
    assert_eq!(skip_modrm_address(&[0, 0, 0, 0], 0, 0x05).unwrap(), 4);
    // mod=01 => disp8
    assert_eq!(skip_modrm_address(&[0], 0, 0x40).unwrap(), 1);
    // mod=10 => disp32
    assert_eq!(skip_modrm_address(&[0, 0, 0, 0], 0, 0x80).unwrap(), 4);
    // mod=00, rm=100 + SIB base=101 => SIB + disp32
    assert_eq!(skip_modrm_address(&[0x25, 0, 0, 0, 0], 0, 0x04).unwrap(), 5);
    // mod=00, rm=100 + SIB base!=101 => SIB only
    assert_eq!(skip_modrm_address(&[0x20], 0, 0x04).unwrap(), 1);
}

#[test]
fn test_skip_modrm_address_errors() {
    assert!(matches!(
        skip_modrm_address(&[], 0, 0xC0),
        Err(err) if err == ErrorKind::Unsupported
    ));
    assert!(matches!(
        skip_modrm_address(&[], 0, 0x04),
        Err(err) if err == ErrorKind::InvalidData
    ));
    // idx overflow on displacement advance.
    assert!(matches!(
        skip_modrm_address(&[0], usize::MAX, 0x40),
        Err(err) if err == ErrorKind::InvalidData
    ));
}

#[test]
fn test_decode_mmio_access_prefetch_noop() {
    let decoded = decode_mmio_access(0x1000, &[0x0f, 0x18, 0x00], false).unwrap();
    assert_eq!(decoded.next_rip, 0x1003);
    assert!(matches!(decoded.kind, MmioAccessKind::Noop));
}

#[test]
fn test_decode_mmio_access_movzx_and_movsxd() {
    let decoded_movzx = decode_mmio_access(0x2000, &[0x0f, 0xb6, 0x18], false).unwrap();
    assert_eq!(decoded_movzx.next_rip, 0x2003);
    assert!(matches!(
        decoded_movzx.kind,
        MmioAccessKind::ReadRegZeroExtend { reg_index: 3 }
    ));

    let decoded_movsxd = decode_mmio_access(0x3000, &[0x44, 0x63, 0x08], false).unwrap();
    assert_eq!(decoded_movsxd.next_rip, 0x3003);
    assert!(matches!(
        decoded_movsxd.kind,
        MmioAccessKind::ReadRegSignExtend { reg_index: 9 }
    ));

    // Legacy high-8 register encoding without REX.
    let decoded_high8 = decode_mmio_access(0x3100, &[0x8a, 0x20], false).unwrap();
    assert_eq!(decoded_high8.next_rip, 0x3102);
    assert!(matches!(
        decoded_high8.kind,
        MmioAccessKind::ReadReg { reg_index: 0, high8: true }
    ));

    // With REX prefix the same reg field maps to extended register, not high-8.
    let decoded_rex = decode_mmio_access(0x3200, &[0x44, 0x8a, 0x20], false).unwrap();
    assert_eq!(decoded_rex.next_rip, 0x3203);
    assert!(matches!(
        decoded_rex.kind,
        MmioAccessKind::ReadReg { reg_index: 12, high8: false }
    ));
}

#[test]
fn test_decode_mmio_access_write_immediates() {
    let c6 = decode_mmio_access(0x4000, &[0xc6, 0x05, 0, 0, 0, 0, 0x7f], true).unwrap();
    assert_eq!(c6.next_rip, 0x4007);
    assert!(matches!(c6.kind, MmioAccessKind::WriteImm { value: 0x7f }));

    let c7 = decode_mmio_access(
        0x5000,
        &[0x48, 0xc7, 0x05, 0, 0, 0, 0, 0xff, 0xff, 0xff, 0xff],
        true,
    )
    .unwrap();
    assert_eq!(c7.next_rip, 0x500b);
    assert!(matches!(c7.kind, MmioAccessKind::WriteImm { value: u64::MAX }));

    // moffs write form should map to RAX register source.
    let moffs_write = decode_mmio_access(0x5100, &[0x48, 0xa3, 0, 0, 0, 0], true).unwrap();
    assert_eq!(moffs_write.next_rip, 0x5106);
    assert!(matches!(
        moffs_write.kind,
        MmioAccessKind::WriteReg { reg_index: 0, high8: false }
    ));

    // C7 with 16-bit immediate uses imm16 width.
    let c7_imm16 =
        decode_mmio_access(0x5200, &[0x66, 0xc7, 0x05, 0, 0, 0, 0, 0x34, 0x12], true).unwrap();
    assert_eq!(c7_imm16.next_rip, 0x5209);
    assert!(matches!(c7_imm16.kind, MmioAccessKind::WriteImm { value: 0x1234 }));
}

#[test]
fn test_decode_mmio_access_table_driven_core_cases() {
    // (rip, bytes, access size, is_write), expected next_rip, expected reg, expected high8
    let read_reg_cases: [((u64, &[u8], usize, bool), u64, u8, bool); 3] = [
        ((0x6000, &[0x8a, 0x18], 1, false), 0x6002, 3_u8, false),
        ((0x6010, &[0x44, 0x88, 0x20], 1, true), 0x6013, 12_u8, false),
        ((0x6020, &[0xa0, 0, 0, 0, 0], 1, false), 0x6025, 0_u8, false),
    ];

    for ((rip, bytes, _access_size, is_write), expected_rip, expected_reg, expected_high8) in
        read_reg_cases
    {
        let decoded = decode_mmio_access(rip, bytes, is_write).unwrap();
        assert_eq!(decoded.next_rip, expected_rip);
        match decoded.kind {
            MmioAccessKind::ReadReg { reg_index, high8 }
            | MmioAccessKind::WriteReg { reg_index, high8 } => {
                assert_eq!(reg_index, expected_reg);
                assert_eq!(high8, expected_high8);
            }
            other => panic!("unexpected decode kind: {:?}", other),
        }
    }

    let zero_sign_cases: [((u64, &[u8], usize, bool), bool, u8); 2] = [
        ((0x6100, &[0x0f, 0xb7, 0x08], 2, false), true, 1_u8),
        ((0x6110, &[0x0f, 0xbf, 0x08], 2, false), false, 1_u8),
    ];

    for ((rip, bytes, _access_size, is_write), expect_zero_extend, expected_reg) in
        zero_sign_cases
    {
        let decoded = decode_mmio_access(rip, bytes, is_write).unwrap();
        if expect_zero_extend {
            assert!(matches!(
                decoded.kind,
                MmioAccessKind::ReadRegZeroExtend { reg_index } if reg_index == expected_reg
            ));
        } else {
            assert!(matches!(
                decoded.kind,
                MmioAccessKind::ReadRegSignExtend { reg_index } if reg_index == expected_reg
            ));
        }
    }
}

#[test]
fn test_decode_mmio_access_table_driven_error_cases() {
    // (bytes, access size, is_write, expected error)
    let invalid_data_cases: [(&[u8], usize, bool, ErrorKind); 4] = [
        (&[0x0f], 1, false, ErrorKind::InvalidData), // missing second opcode byte
        (&[0x0f, 0xb6], 1, false, ErrorKind::InvalidData), // missing ModRM
        (&[0xc6, 0x00], 1, true, ErrorKind::InvalidData), // missing imm8
        (&[0xc7, 0x00, 0x11, 0x22], 4, true, ErrorKind::InvalidData), // missing full imm32
    ];

    for (bytes, _access_size, is_write, kind) in invalid_data_cases {
        let res = decode_mmio_access(0x7000, bytes, is_write);
        assert!(matches!(res, Err(err) if err == kind));
    }

    let unsupported_cases: [(&[u8], usize, bool, ErrorKind); 4] = [
        (&[0x90], 1, false, ErrorKind::Unsupported), // unsupported opcode
        (&[0x88, 0x00], 1, false, ErrorKind::Unsupported), // write opcode in read path
        (&[0xa2, 0, 0, 0, 0], 1, false, ErrorKind::Unsupported), // moffs write in read path
        (&[0x0f, 0xaa, 0x00], 1, false, ErrorKind::Unsupported), // unsupported two-byte opcode
    ];

    for (bytes, _access_size, is_write, kind) in unsupported_cases {
        let res = decode_mmio_access(0x7100, bytes, is_write);
        assert!(matches!(res, Err(err) if err == kind));
    }
}

#[test]
fn test_decode_mmio_access_errors() {
    assert!(matches!(
        decode_mmio_access(0x0, &[], false),
        Err(err) if err == ErrorKind::InvalidData
    ));

    assert!(matches!(
        decode_mmio_access(0x0, &[0xa0], true),
        Err(err) if err == ErrorKind::Unsupported
    ));

    // Unsupported ModRM extension for C6/C7 immediate write forms.
    assert!(matches!(
        decode_mmio_access(0x0, &[0xc6, 0x08, 0x12], true),
        Err(err) if err == ErrorKind::Unsupported
    ));
    assert!(matches!(
        decode_mmio_access(0x0, &[0xc7, 0x08, 0, 0, 0, 0], true),
        Err(err) if err == ErrorKind::Unsupported
    ));

    // Immediate bytes missing.
    assert!(matches!(
        decode_mmio_access(0x0, &[0xc7, 0x05, 0, 0, 0, 0], true),
        Err(err) if err == ErrorKind::InvalidData
    ));

    // next_rip must wrap correctly on overflow.
    let wrapped = decode_mmio_access(u64::MAX, &[0x8a, 0x00], false).unwrap();
    assert_eq!(wrapped.next_rip, 1);
}
