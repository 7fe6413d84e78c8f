use rgb::cpu::Opcode;

#[test]
fn test_fields_are_views_of_the_byte() {
    for is_cb in [false, true] {
        for byte in 0..=255u8 {
            if let Some(entry) = Opcode::from(is_cb, byte) {
                assert_eq!(entry.raw(), byte);
                assert_eq!(entry.is_cb(), is_cb);
                assert_eq!(entry.x(), byte >> 6);
                assert_eq!(entry.y(), (byte >> 3) & 7);
                assert_eq!(entry.z(), byte & 7);
                assert_eq!(entry.p(), entry.y() >> 1);
                assert_eq!(entry.q(), entry.y() & 1);
                assert_eq!(entry.x() * 64 + entry.y() * 8 + entry.z(), byte);
            }
        }
    }
}

#[test]
fn test_fields_of_known_bytes() {
    let fields = |is_cb: bool, byte: u8| {
        let entry = Opcode::from(is_cb, byte).unwrap();
        (entry.x(), entry.y(), entry.z(), entry.p(), entry.q())
    };
    assert_eq!(fields(false, 0x00), (0, 0, 0, 0, 0));
    assert_eq!(fields(false, 0x31), (0, 6, 1, 3, 0));
    assert_eq!(fields(false, 0x76), (1, 6, 6, 3, 0));
    assert_eq!(fields(false, 0xaf), (2, 5, 7, 2, 1));
    assert_eq!(fields(false, 0xcd), (3, 1, 5, 0, 1));
    assert_eq!(fields(false, 0xff), (3, 7, 7, 3, 1));
    assert_eq!(fields(true, 0x7c), (1, 7, 4, 3, 1));
    assert_eq!(fields(true, 0x11), (0, 2, 1, 1, 0));
}

#[test]
fn test_unmapped_bytes() {
    let unmapped = [0xd3u8, 0xdb, 0xdd, 0xe3, 0xe4, 0xeb, 0xec, 0xed, 0xf4, 0xfc, 0xfd];
    for byte in 0..=255u8 {
        assert_eq!(Opcode::from(false, byte).is_none(), unmapped.contains(&byte));
        assert!(Opcode::from(true, byte).is_some());
    }
}

#[test]
fn test_lookup_is_a_function() {
    for is_cb in [false, true] {
        for byte in 0..=255u8 {
            assert_eq!(Opcode::from(is_cb, byte), Opcode::from(is_cb, byte));
        }
    }
    assert_ne!(Opcode::from(false, 0x7c), Opcode::from(true, 0x7c));
    assert_ne!(Opcode::from(false, 0x00), Opcode::from(false, 0x01));
}

#[test]
fn test_costs_of_known_bytes() {
    let cost = |is_cb: bool, byte: u8| Opcode::from(is_cb, byte).unwrap().ncycles();
    // (byte, cost), primary space
    for (byte, expected) in [
        (0x00u8, (1usize, 1usize)), // NOP
        (0x01, (3, 3)),             // LD BC,nn
        (0x02, (2, 2)),             // LD (BC),A
        (0x03, (2, 2)),             // INC BC
        (0x04, (1, 1)),             // INC B
        (0x05, (1, 1)),             // DEC B
        (0x06, (2, 2)),             // LD B,n
        (0x07, (1, 1)),             // RLCA
        (0x08, (5, 5)),             // LD (nn),SP
        (0x09, (2, 2)),             // ADD HL,BC
        (0x10, (1, 1)),             // STOP
        (0x17, (1, 1)),             // RLA
        (0x18, (3, 3)),             // JR d
        (0x20, (3, 2)),             // JR NZ,d
        (0x28, (3, 2)),             // JR Z,d
        (0x30, (3, 2)),             // JR NC,d
        (0x38, (3, 2)),             // JR C,d
        (0x32, (2, 2)),             // LD (HL-),A
        (0x34, (3, 3)),             // INC (HL)
        (0x35, (3, 3)),             // DEC (HL)
        (0x36, (3, 3)),             // LD (HL),n
        (0x40, (1, 1)),             // LD B,B
        (0x46, (2, 2)),             // LD B,(HL)
        (0x70, (2, 2)),             // LD (HL),B
        (0x76, (1, 1)),             // HALT
        (0x80, (1, 1)),             // ADD A,B
        (0x86, (2, 2)),             // ADD A,(HL)
        (0xaf, (1, 1)),             // XOR A
        (0xbe, (2, 2)),             // CP (HL)
        (0xc0, (5, 2)),             // RET NZ
        (0xc1, (3, 3)),             // POP BC
        (0xc2, (4, 3)),             // JP NZ,nn
        (0xc3, (4, 4)),             // JP nn
        (0xc4, (6, 3)),             // CALL NZ,nn
        (0xc5, (4, 4)),             // PUSH BC
        (0xc6, (2, 2)),             // ADD A,n
        (0xc7, (4, 4)),             // RST 0
        (0xc9, (4, 4)),             // RET
        (0xcb, (1, 1)),             // the prefix
        (0xcd, (6, 6)),             // CALL nn
        (0xd9, (4, 4)),             // RETI
        (0xe0, (3, 3)),             // LDH (n),A
        (0xe2, (2, 2)),             // LD (C),A
        (0xe8, (4, 4)),             // ADD SP,d
        (0xe9, (1, 1)),             // JP HL
        (0xea, (4, 4)),             // LD (nn),A
        (0xf0, (3, 3)),             // LDH A,(n)
        (0xf2, (2, 2)),             // LD A,(C)
        (0xf3, (1, 1)),             // DI
        (0xf8, (3, 3)),             // LD HL,SP+d
        (0xf9, (2, 2)),             // LD SP,HL
        (0xfa, (4, 4)),             // LD A,(nn)
        (0xfb, (1, 1)),             // EI
        (0xfe, (2, 2)),             // CP n
        (0xff, (4, 4)),             // RST 0x38
    ] {
        assert_eq!(cost(false, byte), expected);
    }
    // The prefixed space; the cycle of the prefix is not counted again.
    for (byte, expected) in [
        (0x00u8, (1usize, 1usize)), // RLC B
        (0x06, (3, 3)),             // RLC (HL)
        (0x11, (1, 1)),             // RL C
        (0x16, (3, 3)),             // RL (HL)
        (0x46, (2, 2)),             // BIT 0,(HL)
        (0x7c, (1, 1)),             // BIT 7,H
        (0x7e, (2, 2)),             // BIT 7,(HL)
        (0x86, (3, 3)),             // RES 0,(HL)
        (0x87, (1, 1)),             // RES 0,A
        (0xc6, (3, 3)),             // SET 0,(HL)
        (0xff, (1, 1)),             // SET 7,A
    ] {
        assert_eq!(cost(true, byte), expected);
    }
}

#[test]
fn test_alternate_cost() {
    let mut lower = Vec::new();
    for is_cb in [false, true] {
        for byte in 0..=255u8 {
            if let Some(entry) = Opcode::from(is_cb, byte) {
                let (base, alt) = entry.ncycles();
                assert!(1 <= alt && alt <= base && base <= 6);
                if alt < base {
                    assert!(!is_cb);
                    lower.push(byte);
                }
            }
        }
    }
    // JR cc, then RET cc, JP cc and CALL cc for each of the four conditions.
    assert_eq!(
        lower,
        vec![
            0x20, 0x28, 0x30, 0x38, 0xc0, 0xc2, 0xc4, 0xc8, 0xca, 0xcc, 0xd0, 0xd2, 0xd4, 0xd8,
            0xda, 0xdc
        ]
    );
}

#[test]
fn test_total_cost_of_the_table() {
    let mut base_sum = 0;
    let mut alt_sum = 0;
    for byte in 0..=255u8 {
        if let Some(entry) = Opcode::from(false, byte) {
            base_sum += entry.ncycles().0;
            alt_sum += entry.ncycles().1;
        }
    }
    assert_eq!(base_sum - alt_sum, 4 * 1 + 4 * 3 + 4 * 1 + 4 * 3);
    let mut prefixed_sum = 0;
    for byte in 0..=255u8 {
        prefixed_sum += Opcode::from(true, byte).unwrap().ncycles().0;
    }
    // 224 on registers, 8 BIT on (HL), 24 others on (HL).
    assert_eq!(prefixed_sum, 224 + 8 * 2 + 24 * 3);
}
