use rgb::cpu::Flag;
use rgb::cpu::Regs;

#[test]
fn test_flag() {
    let mut regs = Regs::default();

    regs.set_flag(Flag::Z, true);
    assert_eq!(regs.get_flag(Flag::Z), true);
    assert_eq!(regs.get_flag(Flag::N), false);
    assert_eq!(regs.get_flag(Flag::H), false);
    assert_eq!(regs.get_flag(Flag::C), false);
    regs.set_flag(Flag::Z, false);
    assert_eq!(regs.get_flag(Flag::Z), false);

    regs.set_flag(Flag::N, true);
    assert_eq!(regs.get_flag(Flag::Z), false);
    assert_eq!(regs.get_flag(Flag::N), true);
    assert_eq!(regs.get_flag(Flag::H), false);
    assert_eq!(regs.get_flag(Flag::C), false);
    regs.set_flag(Flag::N, false);
    assert_eq!(regs.get_flag(Flag::N), false);

    regs.set_flag(Flag::H, true);
    assert_eq!(regs.get_flag(Flag::Z), false);
    assert_eq!(regs.get_flag(Flag::N), false);
    assert_eq!(regs.get_flag(Flag::H), true);
    assert_eq!(regs.get_flag(Flag::C), false);
    regs.set_flag(Flag::H, false);
    assert_eq!(regs.get_flag(Flag::H), false);

    regs.set_flag(Flag::C, true);
    assert_eq!(regs.get_flag(Flag::Z), false);
    assert_eq!(regs.get_flag(Flag::N), false);
    assert_eq!(regs.get_flag(Flag::H), false);
    assert_eq!(regs.get_flag(Flag::C), true);
    regs.set_flag(Flag::C, false);
    assert_eq!(regs.get_flag(Flag::C), false);
}

#[test]
fn test_reg16() {
    let mut regs = Regs::default();

    regs.set_bc(0x1020);
    assert_eq!(regs.b, 0x10);
    assert_eq!(regs.c, 0x20);

    regs.set_de(0x3040);
    assert_eq!(regs.d, 0x30);
    assert_eq!(regs.e, 0x40);

    regs.set_hl(0x5060);
    assert_eq!(regs.h, 0x50);
    assert_eq!(regs.l, 0x60);
}

#[test]
fn test_dec_r16() {
    let mut regs = Regs::default();
    regs.set_bc(0x0100);
    regs.dec_bc();
    assert_eq!(regs.bc(), 0x00ff);

    regs = Regs::default();
    regs.set_de(0x0100);
    regs.dec_de();
    assert_eq!(regs.de(), 0x00ff);

    regs = Regs::default();
    regs.set_hl(0x0100);
    regs.dec_hl();
    assert_eq!(regs.hl(), 0x00ff);
}

#[test]
fn test_inc_r16() {
    let mut regs = Regs::default();

    regs.set_hl(0x00ff);
    regs.inc_hl();
    assert_eq!(regs.hl(), 0x0100);
    regs.set_hl(0xffff);
    regs.inc_hl();
    assert_eq!(regs.hl(), 0x0000);
    regs.set_hl(0x0101);
    regs.inc_hl();
    assert_eq!(regs.hl(), 0x0102);
}

#[test]
fn test_default_is_all_zero() {
    let regs = Regs::default();
    assert_eq!(
        regs,
        Regs { a: 0, f: 0, b: 0, c: 0, d: 0, e: 0, h: 0, l: 0, pc: 0, sp: 0 }
    );
}

#[test]
fn test_flag_masks() {
    assert_eq!(Flag::Z.mask(), 0b1000_0000);
    assert_eq!(Flag::N.mask(), 0b0100_0000);
    assert_eq!(Flag::H.mask(), 0b0010_0000);
    assert_eq!(Flag::C.mask(), 0b0001_0000);
}

#[test]
fn test_flags_sit_in_f() {
    let mut regs = Regs::default();
    regs.set_flag(Flag::Z, true);
    assert_eq!(regs.f, 0x80);
    regs.set_flag(Flag::C, true);
    assert_eq!(regs.f, 0x90);
    regs.set_flag(Flag::H, true);
    regs.set_flag(Flag::N, true);
    assert_eq!(regs.f, 0xf0);
    regs.set_flag(Flag::Z, false);
    assert_eq!(regs.f, 0x70);
    // Setting what is set, or clearing what is clear, changes nothing.
    regs.set_flag(Flag::N, true);
    regs.set_flag(Flag::Z, false);
    assert_eq!(regs.f, 0x70);
}

#[test]
fn test_set_flag_touches_nothing_else() {
    let mut regs = Regs { a: 1, f: 0x00, b: 2, c: 3, d: 4, e: 5, h: 6, l: 7, pc: 8, sp: 9 };
    regs.set_flag(Flag::H, true);
    assert_eq!(
        regs,
        Regs { a: 1, f: 0x20, b: 2, c: 3, d: 4, e: 5, h: 6, l: 7, pc: 8, sp: 9 }
    );
}

#[test]
fn test_pairs_are_high_then_low() {
    let regs = Regs {
        a: 0x12,
        f: 0x30,
        b: 0x56,
        c: 0x78,
        d: 0x9a,
        e: 0xbc,
        h: 0xde,
        l: 0xf0,
        pc: 0,
        sp: 0,
    };
    assert_eq!(regs.af(), 0x1230);
    assert_eq!(regs.bc(), 0x5678);
    assert_eq!(regs.de(), 0x9abc);
    assert_eq!(regs.hl(), 0xdef0);
}

#[test]
fn test_set_af_clears_low_nibble() {
    let mut regs = Regs::default();
    regs.set_af(0x12ff);
    assert_eq!(regs.a, 0x12);
    assert_eq!(regs.f, 0xf0);
    assert_eq!(regs.af(), 0x12f0);
    regs.set_af(0xab0f);
    assert_eq!(regs.af(), 0xab00);
}

#[test]
fn test_set_pair_round_trips() {
    let mut regs = Regs::default();
    for raw in [0x0000u16, 0x0001, 0x00ff, 0x0100, 0x7fff, 0x8000, 0xff00, 0xffff] {
        regs.set_bc(raw);
        assert_eq!(regs.bc(), raw);
        regs.set_de(raw);
        assert_eq!(regs.de(), raw);
        regs.set_hl(raw);
        assert_eq!(regs.hl(), raw);
    }
}

#[test]
fn test_dec_r16_wraps_at_zero() {
    let mut regs = Regs::default();
    regs.dec_bc();
    assert_eq!(regs.bc(), 0xffff);
    regs.dec_de();
    assert_eq!(regs.de(), 0xffff);
    regs.dec_hl();
    assert_eq!(regs.hl(), 0xffff);
    // No flag and no other register moved.
    assert_eq!(regs.f, 0);
    assert_eq!(regs.a, 0);
    assert_eq!(regs.sp, 0);
    assert_eq!(regs.pc, 0);
}

#[test]
fn test_dec_r16_borrows_from_high_byte() {
    let mut regs = Regs::default();
    regs.set_hl(0x1000);
    regs.dec_hl();
    assert_eq!(regs.h, 0x0f);
    assert_eq!(regs.l, 0xff);
    regs.dec_hl();
    assert_eq!(regs.hl(), 0x0ffe);
}

#[test]
fn test_inc_hl_touches_no_flag() {
    let mut regs = Regs::default();
    regs.f = 0xf0;
    regs.set_hl(0xffff);
    regs.inc_hl();
    assert_eq!(regs.hl(), 0x0000);
    assert_eq!(regs.f, 0xf0);
}
