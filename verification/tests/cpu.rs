use rgb::cpu::Cpu;
use rgb::cpu::DecodeFailure;
use rgb::cpu::Flag;
use rgb::cpu::Opcode;
use rgb::cpu::Regs;
use rgb::mem::Mmu;

// A machine whose program sits at the start of working RAM, with PC on its
// first byte and the stack at the top of high RAM.
fn machine(program: &[u8]) -> (Cpu, Mmu) {
    let mut mmu = Mmu::new();
    for (i, byte) in program.iter().enumerate() {
        mmu.write_byte(0xc000 + i as u16, *byte);
    }
    let mut cpu = Cpu::new();
    cpu.regs.pc = 0xc000;
    cpu.regs.sp = 0xfffe;
    (cpu, mmu)
}

fn flags(cpu: &Cpu) -> (bool, bool, bool, bool) {
    (
        cpu.regs.get_flag(Flag::Z),
        cpu.regs.get_flag(Flag::N),
        cpu.regs.get_flag(Flag::H),
        cpu.regs.get_flag(Flag::C),
    )
}

#[test]
fn test_dec_ry() {
    let mut mmu = Mmu::new();
    let mut cpu = Cpu::new();
    let opcode_dec_b = Opcode::from(false, 0x05).unwrap();

    cpu.regs.b = 0x00;
    assert_eq!(cpu._run_opcode_un(&mut mmu, &opcode_dec_b), Ok(1));
    assert_eq!(cpu.regs.b, 0xff);
    assert_eq!(cpu.regs.get_flag(Flag::Z), false);
    assert_eq!(cpu.regs.get_flag(Flag::N), true);
    assert_eq!(cpu.regs.get_flag(Flag::H), true);

    cpu.regs.b = 0x01;
    assert_eq!(cpu._run_opcode_un(&mut mmu, &opcode_dec_b), Ok(1));
    assert_eq!(cpu.regs.b, 0x00);
    assert_eq!(cpu.regs.get_flag(Flag::Z), true);
    assert_eq!(cpu.regs.get_flag(Flag::N), true);
    assert_eq!(cpu.regs.get_flag(Flag::H), false);
}

#[test]
fn test_inc_ry() {
    let mut mmu = Mmu::new();
    let mut cpu = Cpu::new();
    let opcode_inc_b = Opcode::from(false, 0x04).unwrap();

    cpu.regs.b = 0x00;
    assert_eq!(cpu._run_opcode_un(&mut mmu, &opcode_inc_b), Ok(1));
    assert_eq!(cpu.regs.b, 0x01);
    assert_eq!(cpu.regs.get_flag(Flag::Z), false);
    assert_eq!(cpu.regs.get_flag(Flag::N), false);
    assert_eq!(cpu.regs.get_flag(Flag::H), false);

    cpu.regs.b = 0x0f;
    assert_eq!(cpu._run_opcode_un(&mut mmu, &opcode_inc_b), Ok(1));
    assert_eq!(cpu.regs.b, 0x10);
    assert_eq!(cpu.regs.get_flag(Flag::Z), false);
    assert_eq!(cpu.regs.get_flag(Flag::N), false);
    assert_eq!(cpu.regs.get_flag(Flag::H), true);

    cpu.regs.b = 0xff;
    assert_eq!(cpu._run_opcode_un(&mut mmu, &opcode_inc_b), Ok(1));
    assert_eq!(cpu.regs.b, 0x00);
    assert_eq!(cpu.regs.get_flag(Flag::Z), true);
    assert_eq!(cpu.regs.get_flag(Flag::N), false);
    assert_eq!(cpu.regs.get_flag(Flag::H), true);
}

#[test]
fn test_inc_rp() {
    let mut mmu = Mmu::new();
    let mut cpu = Cpu::new();
    let opcode_inc_hl = Opcode::from(false, 0x23).unwrap();

    cpu.regs.set_hl(0x0000);
    assert_eq!(cpu._run_opcode_un(&mut mmu, &opcode_inc_hl), Ok(2));
    assert_eq!(cpu.regs.hl(), 0x0001);
    cpu.regs.set_hl(0x00ff);
    assert_eq!(cpu._run_opcode_un(&mut mmu, &opcode_inc_hl), Ok(2));
    assert_eq!(cpu.regs.hl(), 0x0100);
    cpu.regs.set_hl(0xffff);
    assert_eq!(cpu._run_opcode_un(&mut mmu, &opcode_inc_hl), Ok(2));
    assert_eq!(cpu.regs.hl(), 0x0000);
}

#[test]
fn test_alu_cp() {
    let mut cpu = Cpu::new();

    // Equal: Z, and no borrow.
    cpu.regs.a = 0x34;
    cpu._alu_cp(0x34);
    assert_eq!(cpu.regs.a, 0x34);
    assert_eq!(flags(&cpu), (true, true, false, false));

    // The low nibble borrows, the byte does not.
    cpu.regs.a = 0x10;
    cpu._alu_cp(0x01);
    assert_eq!(cpu.regs.a, 0x10);
    assert_eq!(flags(&cpu), (false, true, true, false));

    // The byte borrows, the low nibble does not.
    cpu.regs.a = 0x12;
    cpu._alu_cp(0x21);
    assert_eq!(cpu.regs.a, 0x12);
    assert_eq!(flags(&cpu), (false, true, false, true));

    // Both borrow.
    cpu.regs.a = 0x00;
    cpu._alu_cp(0x01);
    assert_eq!(cpu.regs.a, 0x00);
    assert_eq!(flags(&cpu), (false, true, true, true));

    // The carry flag is not an input of the comparison.
    cpu.regs.a = 0x01;
    cpu.regs.set_flag(Flag::C, true);
    cpu._alu_cp(0x00);
    assert_eq!(flags(&cpu), (false, true, false, false));
}

#[test]
fn test_alu_rl() {
    let mut cpu = Cpu::new();

    // Bit 7 leaves into the carry; the old carry, clear, comes in.
    assert_eq!(cpu._alu_rl(0x80), 0x00);
    assert_eq!(flags(&cpu), (true, false, false, true));

    // The carry set by the rotation before comes in as bit 0.
    assert_eq!(cpu._alu_rl(0x01), 0x03);
    assert_eq!(flags(&cpu), (false, false, false, false));

    cpu.regs.set_flag(Flag::C, true);
    cpu.regs.set_flag(Flag::N, true);
    cpu.regs.set_flag(Flag::H, true);
    assert_eq!(cpu._alu_rl(0xff), 0xff);
    assert_eq!(flags(&cpu), (false, false, false, true));

    assert_eq!(cpu._alu_rl(0x00), 0x01);
    assert_eq!(flags(&cpu), (false, false, false, false));

    assert_eq!(cpu._alu_rl(0x00), 0x00);
    assert_eq!(flags(&cpu), (true, false, false, false));

    // Only the flags of the processor moved.
    assert_eq!(cpu.regs, Regs { f: 0x80, ..Regs::default() });
}

#[test]
fn test_alu_sub() {
    let mut cpu = Cpu::new();

    cpu.regs.a = 0x10;
    cpu._alu_sub(0x0f, false);
    assert_eq!(cpu.regs.a, 0x10);
    assert_eq!(flags(&cpu), (false, true, true, false));

    // With the carry taken in, 0x10 - 0x0f - 1 is zero.
    cpu.regs.set_flag(Flag::C, true);
    cpu._alu_sub(0x0f, true);
    assert_eq!(cpu.regs.a, 0x10);
    assert_eq!(flags(&cpu), (true, true, true, false));

    // The carry flag is set but not asked for.
    cpu.regs.set_flag(Flag::C, true);
    cpu._alu_sub(0x10, false);
    assert_eq!(flags(&cpu), (true, true, false, false));

    // 0x00 - 0xff - 1 wraps to zero and borrows everywhere.
    cpu.regs.a = 0x00;
    cpu.regs.set_flag(Flag::C, true);
    cpu._alu_sub(0xff, true);
    assert_eq!(cpu.regs.a, 0x00);
    assert_eq!(flags(&cpu), (true, true, true, true));

    // The carry is asked for but clear.
    cpu.regs.a = 0x20;
    cpu.regs.set_flag(Flag::C, false);
    cpu._alu_sub(0x10, true);
    assert_eq!(flags(&cpu), (false, true, false, false));
}

#[test]
fn test_alu_xor() {
    let mut cpu = Cpu::new();

    cpu.regs.a = 0x0f;
    cpu._alu_xor(0xf0);
    assert_eq!(cpu.regs.a, 0xff);
    assert_eq!(cpu.regs.get_flag(Flag::Z), false);
    assert_eq!(cpu.regs.get_flag(Flag::N), false);
    assert_eq!(cpu.regs.get_flag(Flag::H), false);
    assert_eq!(cpu.regs.get_flag(Flag::C), false);

    cpu.regs.a = 0x0f;
    cpu._alu_xor(0x0f);
    assert_eq!(cpu.regs.a, 0x00);
    assert_eq!(cpu.regs.get_flag(Flag::Z), true);
    assert_eq!(cpu.regs.get_flag(Flag::N), false);
    assert_eq!(cpu.regs.get_flag(Flag::H), false);
    assert_eq!(cpu.regs.get_flag(Flag::C), false);
}

#[test]
fn test_new_and_default() {
    let cpu = Cpu::new();
    assert_eq!(cpu.regs, Regs::default());
    assert_eq!(cpu.is_halted(), false);
    assert_eq!(cpu.next_opcode_is_cb(), false);
    assert_eq!(cpu.curr_opcode(), None);
    let cpu = Cpu::default();
    assert_eq!(cpu.regs, Regs::default());
    assert_eq!(cpu.is_halted(), false);
    assert_eq!(cpu.next_opcode_is_cb(), false);
    assert_eq!(cpu.curr_opcode(), None);
}

#[test]
fn test_xor_a_with_itself_for_every_a() {
    for a in 0..=255u8 {
        let (mut cpu, mut mmu) = machine(&[0xaf]);
        cpu.regs.a = a;
        cpu.regs.f = 0xf0;
        assert_eq!(cpu.step(&mut mmu), Ok(1));
        assert_eq!(cpu.regs.a, 0x00);
        assert_eq!(flags(&cpu), (true, false, false, false));
    }
}

#[test]
fn test_xor_operands() {
    // XOR B, XOR (HL)
    let (mut cpu, mut mmu) = machine(&[0xa8, 0xae]);
    cpu.regs.a = 0b1100_1100;
    cpu.regs.b = 0b1010_1010;
    cpu.regs.set_hl(0xc100);
    mmu.write_byte(0xc100, 0b0110_0110);
    assert_eq!(cpu.step(&mut mmu), Ok(1));
    assert_eq!(cpu.regs.a, 0b0110_0110);
    assert_eq!(flags(&cpu), (false, false, false, false));
    assert_eq!(cpu.step(&mut mmu), Ok(2));
    assert_eq!(cpu.regs.a, 0x00);
    assert_eq!(flags(&cpu), (true, false, false, false));
}

#[test]
fn test_inc_dec_flags_for_every_value() {
    let inc_b = Opcode::from(false, 0x04).unwrap();
    let dec_b = Opcode::from(false, 0x05).unwrap();
    for v in 0..=255u8 {
        for carry in [false, true] {
            let mut mmu = Mmu::new();
            let mut cpu = Cpu::new();
            cpu.regs.b = v;
            cpu.regs.set_flag(Flag::C, carry);
            assert_eq!(cpu._run_opcode_un(&mut mmu, &inc_b), Ok(1));
            assert_eq!(cpu.regs.b, v.wrapping_add(1));
            assert_eq!(flags(&cpu), (v == 0xff, false, v & 0x0f == 0x0f, carry));

            cpu.regs.b = v;
            assert_eq!(cpu._run_opcode_un(&mut mmu, &dec_b), Ok(1));
            assert_eq!(cpu.regs.b, v.wrapping_sub(1));
            assert_eq!(flags(&cpu), (v == 0x01, true, v & 0x0f == 0x00, carry));
        }
    }
}

#[test]
fn test_inc_dec_each_operand() {
    // INC B, C, D, E, H, L, (HL), A
    let (mut cpu, mut mmu) = machine(&[0x04, 0x0c, 0x14, 0x1c, 0x24, 0x2c, 0x34, 0x3c]);
    cpu.regs.set_hl(0xc0ff);
    for cost in [1, 1, 1, 1, 1, 1] {
        assert_eq!(cpu.step(&mut mmu), Ok(cost));
    }
    assert_eq!((cpu.regs.b, cpu.regs.c, cpu.regs.d, cpu.regs.e), (1, 1, 1, 1));
    // H and L went up before (HL) was used: HL is 0xc1 0x00 now.
    assert_eq!(cpu.regs.hl(), 0xc100);
    mmu.write_byte(0xc100, 0x0f);
    assert_eq!(cpu.step(&mut mmu), Ok(3));
    assert_eq!(mmu.read_byte(0xc100), 0x10);
    assert_eq!(flags(&cpu), (false, false, true, false));
    assert_eq!(cpu.step(&mut mmu), Ok(1));
    assert_eq!(cpu.regs.a, 1);

    // DEC (HL)
    let (mut cpu, mut mmu) = machine(&[0x35]);
    cpu.regs.set_hl(0xff80);
    assert_eq!(cpu.step(&mut mmu), Ok(3));
    assert_eq!(mmu.read_byte(0xff80), 0xff);
    assert_eq!(flags(&cpu), (false, true, true, false));
}

#[test]
fn test_inc_each_pair() {
    // INC BC, INC DE, INC HL, INC SP
    let (mut cpu, mut mmu) = machine(&[0x03, 0x13, 0x23, 0x33]);
    cpu.regs.set_bc(0xffff);
    cpu.regs.set_de(0x00ff);
    cpu.regs.set_hl(0x1234);
    cpu.regs.sp = 0xffff;
    cpu.regs.f = 0xf0;
    for _ in 0..4 {
        assert_eq!(cpu.step(&mut mmu), Ok(2));
    }
    assert_eq!(cpu.regs.bc(), 0x0000);
    assert_eq!(cpu.regs.de(), 0x0100);
    assert_eq!(cpu.regs.hl(), 0x1235);
    assert_eq!(cpu.regs.sp, 0x0000);
    // No flag was touched.
    assert_eq!(cpu.regs.f, 0xf0);
}

#[test]
fn test_ld_pair_immediate() {
    // LD BC,0x1234; LD DE,0x5678; LD HL,0x9abc; LD SP,0xdef0
    let (mut cpu, mut mmu) = machine(&[
        0x01, 0x34, 0x12, 0x11, 0x78, 0x56, 0x21, 0xbc, 0x9a, 0x31, 0xf0, 0xde,
    ]);
    for _ in 0..4 {
        assert_eq!(cpu.step(&mut mmu), Ok(3));
    }
    assert_eq!(cpu.regs.bc(), 0x1234);
    assert_eq!(cpu.regs.de(), 0x5678);
    assert_eq!(cpu.regs.hl(), 0x9abc);
    assert_eq!(cpu.regs.sp, 0xdef0);
    assert_eq!(cpu.regs.pc, 0xc00c);
}

#[test]
fn test_ld_immediate_and_between_operands() {
    // LD B,0x11; LD C,B; LD H,0xc2; LD L,0x00; LD (HL),C; LD A,(HL); LD (HL),0x77; LD E,(HL)
    let (mut cpu, mut mmu) = machine(&[
        0x06, 0x11, 0x48, 0x26, 0xc2, 0x2e, 0x00, 0x71, 0x7e, 0x36, 0x77, 0x5e,
    ]);
    assert_eq!(cpu.step(&mut mmu), Ok(2));
    assert_eq!(cpu.regs.b, 0x11);
    assert_eq!(cpu.step(&mut mmu), Ok(1));
    assert_eq!(cpu.regs.c, 0x11);
    assert_eq!(cpu.step(&mut mmu), Ok(2));
    assert_eq!(cpu.step(&mut mmu), Ok(2));
    assert_eq!(cpu.regs.hl(), 0xc200);
    assert_eq!(cpu.step(&mut mmu), Ok(2));
    assert_eq!(mmu.read_byte(0xc200), 0x11);
    assert_eq!(cpu.step(&mut mmu), Ok(2));
    assert_eq!(cpu.regs.a, 0x11);
    assert_eq!(cpu.step(&mut mmu), Ok(3));
    assert_eq!(mmu.read_byte(0xc200), 0x77);
    assert_eq!(cpu.step(&mut mmu), Ok(2));
    assert_eq!(cpu.regs.e, 0x77);
    // Loads touch no flag.
    assert_eq!(cpu.regs.f, 0x00);
    assert_eq!(cpu.regs.pc, 0xc00c);
}

#[test]
fn test_ld_a_through_pairs() {
    // LD A,(BC); LD A,(DE)
    let (mut cpu, mut mmu) = machine(&[0x0a, 0x1a]);
    mmu.write_byte(0xc111, 0xaa);
    mmu.write_byte(0xc222, 0xbb);
    cpu.regs.set_bc(0xc111);
    cpu.regs.set_de(0xc222);
    assert_eq!(cpu.step(&mut mmu), Ok(2));
    assert_eq!(cpu.regs.a, 0xaa);
    assert_eq!(cpu.step(&mut mmu), Ok(2));
    assert_eq!(cpu.regs.a, 0xbb);
}

#[test]
fn test_store_a_and_move_hl() {
    // LD (HL+),A; LD (HL-),A; LD (HL-),A
    let (mut cpu, mut mmu) = machine(&[0x22, 0x32, 0x32]);
    cpu.regs.a = 0x5a;
    cpu.regs.set_hl(0xc0ff);
    assert_eq!(cpu.step(&mut mmu), Ok(2));
    assert_eq!(mmu.read_byte(0xc0ff), 0x5a);
    assert_eq!(cpu.regs.hl(), 0xc100);
    assert_eq!(cpu.step(&mut mmu), Ok(2));
    assert_eq!(mmu.read_byte(0xc100), 0x5a);
    assert_eq!(cpu.regs.hl(), 0xc0ff);
    cpu.regs.set_hl(0x0000);
    assert_eq!(cpu.step(&mut mmu), Ok(2));
    assert_eq!(cpu.regs.hl(), 0xffff);
    assert_eq!(cpu.regs.f, 0x00);
}

#[test]
fn test_store_a_in_high_page() {
    // LDH (0x80),A; LD (C),A; LDH (0x47),A
    let (mut cpu, mut mmu) = machine(&[0xe0, 0x80, 0xe2, 0xe0, 0x47]);
    cpu.regs.a = 0x99;
    cpu.regs.c = 0xfe;
    assert_eq!(cpu.step(&mut mmu), Ok(3));
    assert_eq!(mmu.read_byte(0xff80), 0x99);
    assert_eq!(cpu.step(&mut mmu), Ok(2));
    assert_eq!(mmu.read_byte(0xfffe), 0x99);
    // Nothing is mapped at 0xff47: the write is dropped, the cost stays.
    assert_eq!(cpu.step(&mut mmu), Ok(3));
    assert_eq!(mmu.read_byte(0xff47), 0x00);
    assert_eq!(cpu.regs.pc, 0xc005);
}

#[test]
fn test_rla() {
    let (mut cpu, mut mmu) = machine(&[0x17, 0x17]);
    cpu.regs.a = 0x80;
    assert_eq!(cpu.step(&mut mmu), Ok(1));
    assert_eq!(cpu.regs.a, 0x00);
    assert_eq!(flags(&cpu), (true, false, false, true));
    assert_eq!(cpu.step(&mut mmu), Ok(1));
    assert_eq!(cpu.regs.a, 0x01);
    assert_eq!(flags(&cpu), (false, false, false, false));
}

#[test]
fn test_cp_immediate() {
    // CP 0x34; CP 0x35
    let (mut cpu, mut mmu) = machine(&[0xfe, 0x34, 0xfe, 0x35]);
    cpu.regs.a = 0x34;
    assert_eq!(cpu.step(&mut mmu), Ok(2));
    assert_eq!(cpu.regs.a, 0x34);
    assert_eq!(flags(&cpu), (true, true, false, false));
    assert_eq!(cpu.step(&mut mmu), Ok(2));
    assert_eq!(cpu.regs.a, 0x34);
    assert_eq!(flags(&cpu), (false, true, true, true));
    assert_eq!(cpu.regs.pc, 0xc004);
}

#[test]
fn test_jr_taken_and_not_taken() {
    // JR NZ,+5 with Z clear: taken.
    let (mut cpu, mut mmu) = machine(&[0x20, 0x05]);
    assert_eq!(cpu.step(&mut mmu), Ok(3));
    assert_eq!(cpu.regs.pc, 0xc007);

    // The same with Z set: not taken, the lower cost.
    let (mut cpu, mut mmu) = machine(&[0x20, 0x05]);
    cpu.regs.set_flag(Flag::Z, true);
    let before = cpu.regs;
    assert_eq!(cpu.step(&mut mmu), Ok(2));
    assert_eq!(cpu.regs, Regs { pc: 0xc002, ..before });
}

#[test]
fn test_jr_each_condition() {
    // (opcode, flag, value of the flag for which the jump is taken)
    for (byte, flag, wanted) in [
        (0x20u8, Flag::Z, false),
        (0x28, Flag::Z, true),
        (0x30, Flag::C, false),
        (0x38, Flag::C, true),
    ] {
        for set in [false, true] {
            let (mut cpu, mut mmu) = machine(&[byte, 0x10]);
            cpu.regs.set_flag(flag, set);
            let entry = Opcode::from(false, byte).unwrap();
            assert_eq!(entry.ncycles(), (3, 2));
            if set == wanted {
                assert_eq!(cpu.step(&mut mmu), Ok(entry.ncycles().0));
                assert_eq!(cpu.regs.pc, 0xc012);
            } else {
                assert_eq!(cpu.step(&mut mmu), Ok(entry.ncycles().1));
                assert_eq!(cpu.regs.pc, 0xc002);
            }
        }
    }
}

#[test]
fn test_jr_backwards_and_wrapping() {
    // A displacement of 0xfb is -5.
    let (mut cpu, mut mmu) = machine(&[0x20, 0xfb]);
    assert_eq!(cpu.step(&mut mmu), Ok(3));
    assert_eq!(cpu.regs.pc, 0xbffd);

    // -128 and +127, the ends of the range.
    let (mut cpu, mut mmu) = machine(&[0x20, 0x80]);
    assert_eq!(cpu.step(&mut mmu), Ok(3));
    assert_eq!(cpu.regs.pc, 0xbf82);
    let (mut cpu, mut mmu) = machine(&[0x20, 0x7f]);
    assert_eq!(cpu.step(&mut mmu), Ok(3));
    assert_eq!(cpu.regs.pc, 0xc081);

    // Forwards past 0xffff.
    let mut mmu = Mmu::new();
    mmu.write_byte(0xfffd, 0x20);
    mmu.write_byte(0xfffe, 0x7f);
    let mut cpu = Cpu::new();
    cpu.regs.pc = 0xfffd;
    assert_eq!(cpu.step(&mut mmu), Ok(3));
    assert_eq!(cpu.regs.pc, 0x007e);

    // The displacement itself is fetched at 0xffff, and PC wraps behind it.
    let mut mmu = Mmu::new();
    mmu.unmap_bios();
    mmu.write_byte(0xfffe, 0x20);
    let mut cpu = Cpu::new();
    cpu.regs.pc = 0xfffe;
    // Nothing is mapped at 0xffff: the displacement is 0.
    assert_eq!(cpu.step(&mut mmu), Ok(3));
    assert_eq!(cpu.regs.pc, 0x0000);
}

#[test]
fn test_push_pop_each_pair() {
    // PUSH BC, DE, HL, AF; POP AF, HL, DE, BC
    let (mut cpu, mut mmu) = machine(&[0xc5, 0xd5, 0xe5, 0xf5, 0xf1, 0xe1, 0xd1, 0xc1]);
    cpu.regs.set_bc(0x1122);
    cpu.regs.set_de(0x3344);
    cpu.regs.set_hl(0x5566);
    cpu.regs.set_af(0x77f0);
    let before = cpu.regs;
    for _ in 0..4 {
        assert_eq!(cpu.step(&mut mmu), Ok(4));
    }
    assert_eq!(cpu.regs.sp, 0xfff6);
    assert_eq!(mmu.read_word(0xfffc), 0x1122);
    assert_eq!(mmu.read_word(0xfffa), 0x3344);
    assert_eq!(mmu.read_word(0xfff8), 0x5566);
    assert_eq!(mmu.read_word(0xfff6), 0x77f0);
    // The high byte lies above the low byte.
    assert_eq!(mmu.read_byte(0xfffc), 0x22);
    assert_eq!(mmu.read_byte(0xfffd), 0x11);
    cpu.regs.set_bc(0);
    cpu.regs.set_de(0);
    cpu.regs.set_hl(0);
    cpu.regs.set_af(0);
    for _ in 0..4 {
        assert_eq!(cpu.step(&mut mmu), Ok(3));
    }
    assert_eq!(cpu.regs, Regs { pc: 0xc008, ..before });
}

#[test]
fn test_push_pop_moves_between_pairs() {
    // PUSH BC; POP DE
    let (mut cpu, mut mmu) = machine(&[0xc5, 0xd1]);
    cpu.regs.set_bc(0xbeef);
    assert_eq!(cpu.step(&mut mmu), Ok(4));
    assert_eq!(cpu.step(&mut mmu), Ok(3));
    assert_eq!(cpu.regs.de(), 0xbeef);
    assert_eq!(cpu.regs.sp, 0xfffe);
}

#[test]
fn test_pop_af_keeps_low_nibble_zero() {
    // POP AF
    let (mut cpu, mut mmu) = machine(&[0xf1]);
    cpu.regs.sp = 0xc100;
    mmu.write_word(0xc100, 0x12ff);
    assert_eq!(cpu.step(&mut mmu), Ok(3));
    assert_eq!(cpu.regs.a, 0x12);
    assert_eq!(cpu.regs.f, 0xf0);
}

#[test]
fn test_push_where_nothing_is_mapped() {
    // PUSH BC; POP BC with the stack below 0x0002, inside the boot image:
    // the push is dropped and the pop reads the image.
    let (mut cpu, mut mmu) = machine(&[0xc5, 0xc1]);
    cpu.regs.sp = 0x0002;
    cpu.regs.set_bc(0x1234);
    assert_eq!(cpu.step(&mut mmu), Ok(4));
    assert_eq!(cpu.regs.sp, 0x0000);
    assert_eq!(cpu.step(&mut mmu), Ok(3));
    assert_eq!(cpu.regs.sp, 0x0002);
    assert_eq!(cpu.regs.bc(), 0xfe31);
}

#[test]
fn test_stack_wraps() {
    // PUSH BC with SP 0x0001: the word goes to 0xffff and 0x0000.
    let (mut cpu, mut mmu) = machine(&[0xc5]);
    cpu.regs.sp = 0x0001;
    assert_eq!(cpu.step(&mut mmu), Ok(4));
    assert_eq!(cpu.regs.sp, 0xffff);
}

#[test]
fn test_call_and_ret() {
    // 0xc000: CALL 0xc010 ... 0xc010: RET
    let (mut cpu, mut mmu) = machine(&[0xcd, 0x10, 0xc0]);
    mmu.write_byte(0xc010, 0xc9);
    assert_eq!(cpu.step(&mut mmu), Ok(6));
    assert_eq!(cpu.regs.pc, 0xc010);
    assert_eq!(cpu.regs.sp, 0xfffc);
    // The address after the operand of the call was pushed.
    assert_eq!(mmu.read_word(0xfffc), 0xc003);
    assert_eq!(cpu.step(&mut mmu), Ok(4));
    assert_eq!(cpu.regs.pc, 0xc003);
    assert_eq!(cpu.regs.sp, 0xfffe);
}

#[test]
fn test_nop() {
    let (mut cpu, mut mmu) = machine(&[0x00]);
    cpu.regs = Regs {
        a: 1,
        f: 0xf0,
        b: 2,
        c: 3,
        d: 4,
        e: 5,
        h: 6,
        l: 7,
        pc: 0xc000,
        sp: 0xfffe,
    };
    let before = cpu.regs;
    mmu.write_byte(0xff80, 0x42);
    assert_eq!(cpu.step(&mut mmu), Ok(1));
    assert_eq!(cpu.regs, Regs { pc: 0xc001, ..before });
    assert_eq!(cpu.is_halted(), false);
    assert_eq!(cpu.next_opcode_is_cb(), false);
    assert_eq!(mmu.read_byte(0xff80), 0x42);
    assert_eq!(mmu.read_byte(0xc000), 0x00);
    assert_eq!(mmu.is_bios_mapped(), true);

    // The entry alone, with no fetch: nothing moves at all.
    let nop = Opcode::from(false, 0x00).unwrap();
    assert_eq!(cpu._run_opcode_un(&mut mmu, &nop), Ok(1));
    assert_eq!(cpu.regs, Regs { pc: 0xc001, ..before });
}

#[test]
fn test_pc_wraps_on_fetch() {
    let mut mmu = Mmu::new();
    let mut cpu = Cpu::new();
    cpu.regs.pc = 0xffff;
    // Nothing is mapped at 0xffff: the byte is 0x00, a no-operation.
    assert_eq!(cpu.step(&mut mmu), Ok(1));
    assert_eq!(cpu.regs.pc, 0x0000);
}

#[test]
fn test_first_step_of_boot() {
    let mut mmu = Mmu::new();
    let mut cpu = Cpu::new();
    cpu.regs.sp = 0xfffe;
    assert_eq!(cpu.regs.pc, 0x0000);
    assert_eq!(mmu.is_bios_mapped(), true);
    // LD SP,0xfffe
    let entry = Opcode::from(false, mmu.read_byte(0x0000)).unwrap();
    assert_eq!(cpu.step(&mut mmu), Ok(entry.ncycles().0));
    assert_eq!(entry.ncycles().0, 3);
    assert_eq!(cpu.regs, Regs { pc: 0x0003, sp: 0xfffe, ..Regs::default() });
    assert_eq!(cpu.curr_opcode(), Some(entry));

    // From power-on, SP is loaded all the same.
    let mut cpu = Cpu::new();
    assert_eq!(cpu.step(&mut mmu), Ok(3));
    assert_eq!(cpu.regs.sp, 0xfffe);
    assert_eq!(cpu.regs.pc, 0x0003);
}

#[test]
fn test_halt() {
    // HALT; INC B
    let (mut cpu, mut mmu) = machine(&[0x76, 0x04]);
    assert_eq!(cpu.step(&mut mmu), Ok(1));
    assert_eq!(cpu.is_halted(), true);
    assert_eq!(cpu.regs.pc, 0xc001);
    let before = cpu.regs;
    for _ in 0..10 {
        // Halted: no fetch, one cycle.
        assert_eq!(cpu.step(&mut mmu), Ok(1));
        assert_eq!(cpu.regs, before);
        assert_eq!(cpu.is_halted(), true);
        assert_eq!(cpu.curr_opcode().map(|entry| entry.raw()), Some(0x76));
    }
}

#[test]
fn test_prefix_lasts_for_one_byte() {
    // prefix; BIT 7,H; BIT 7,H read in the primary space is LD A,H
    let (mut cpu, mut mmu) = machine(&[0xcb, 0x7c, 0x7c]);
    cpu.regs.h = 0x80;
    assert_eq!(cpu.step(&mut mmu), Ok(1));
    assert_eq!(cpu.next_opcode_is_cb(), true);
    assert_eq!(cpu.regs, Regs { h: 0x80, pc: 0xc001, sp: 0xfffe, ..Regs::default() });

    assert_eq!(cpu.step(&mut mmu), Ok(1));
    assert_eq!(cpu.next_opcode_is_cb(), false);
    assert_eq!(cpu.curr_opcode(), Opcode::from(true, 0x7c));
    assert_eq!(flags(&cpu), (false, false, true, false));
    assert_eq!(cpu.regs.a, 0x00);

    assert_eq!(cpu.step(&mut mmu), Ok(1));
    assert_eq!(cpu.curr_opcode(), Opcode::from(false, 0x7c));
    assert_eq!(cpu.regs.a, 0x80);
}

#[test]
fn test_bit() {
    let mut mmu = Mmu::new();
    for bit in 0..8u8 {
        for z in 0..8u8 {
            let entry = Opcode::from(true, 0x40 | (bit << 3) | z).unwrap();
            for carry in [false, true] {
                for value in [0x00u8, 0xff, 1 << bit, !(1 << bit)] {
                    let mut cpu = Cpu::new();
                    cpu.regs.set_hl(0xc000);
                    mmu.write_byte(0xc000, value);
                    cpu.regs.a = value;
                    cpu.regs.b = value;
                    cpu.regs.c = value;
                    cpu.regs.d = value;
                    cpu.regs.e = value;
                    let seen = match z {
                        4 => 0xc0,
                        5 => 0x00,
                        _ => value,
                    };
                    cpu.regs.set_flag(Flag::C, carry);
                    cpu.regs.set_flag(Flag::N, true);
                    let cost = if z == 6 { 2 } else { 1 };
                    assert_eq!(cpu._run_opcode_cb(&mut mmu, &entry), Ok(cost));
                    assert_eq!(flags(&cpu), (seen & (1 << bit) == 0, false, true, carry));
                }
            }
        }
    }
}

#[test]
fn test_rl_each_operand() {
    // prefix; RL B ... prefix; RL A
    let (mut cpu, mut mmu) = machine(&[
        0xcb, 0x10, 0xcb, 0x11, 0xcb, 0x12, 0xcb, 0x13, 0xcb, 0x16, 0xcb, 0x17,
    ]);
    cpu.regs.b = 0x80;
    cpu.regs.c = 0x00;
    cpu.regs.d = 0x40;
    cpu.regs.e = 0xc0;
    cpu.regs.a = 0x7f;
    cpu.regs.set_hl(0xc200);
    mmu.write_byte(0xc200, 0x01);
    let mut costs = Vec::new();
    for _ in 0..12 {
        costs.push(cpu.step(&mut mmu).unwrap());
    }
    assert_eq!(costs, vec![1, 1, 1, 1, 1, 1, 1, 1, 1, 3, 1, 1]);
    // B: 0x80 -> 0x00, carry out. C: 0x00 with the carry in -> 0x01.
    // D: 0x40 -> 0x80. E: 0xc0 -> 0x80, carry out.
    // (HL): 0x01 with the carry in -> 0x03. A: 0x7f -> 0xfe.
    assert_eq!((cpu.regs.b, cpu.regs.c, cpu.regs.d, cpu.regs.e), (0x00, 0x01, 0x80, 0x80));
    assert_eq!(mmu.read_byte(0xc200), 0x03);
    assert_eq!(cpu.regs.a, 0xfe);
    assert_eq!(flags(&cpu), (false, false, false, false));
}

#[test]
fn test_unmapped_opcode() {
    for byte in [0xd3u8, 0xdb, 0xdd, 0xe3, 0xe4, 0xeb, 0xec, 0xed, 0xf4, 0xfc, 0xfd] {
        let (mut cpu, mut mmu) = machine(&[byte]);
        cpu.regs.a = 0x12;
        let failure = cpu.step(&mut mmu);
        assert_eq!(
            failure,
            Err(DecodeFailure::Unmapped {
                byte,
                is_cb: false,
                regs: Regs { a: 0x12, pc: 0xc001, sp: 0xfffe, ..Regs::default() },
            })
        );
        assert_eq!(cpu.curr_opcode(), None);
        assert_eq!(cpu.regs.pc, 0xc001);
        assert_eq!(cpu.is_halted(), false);
    }
}

#[test]
fn test_unhandled_opcode() {
    // JP nn has an entry and no instruction in the engine.
    let (mut cpu, mut mmu) = machine(&[0xc3, 0x00, 0xc0]);
    assert_eq!(
        cpu.step(&mut mmu),
        Err(DecodeFailure::Unhandled {
            byte: 0xc3,
            is_cb: false,
            regs: Regs { pc: 0xc001, sp: 0xfffe, ..Regs::default() },
        })
    );
    assert_eq!(cpu.curr_opcode(), Opcode::from(false, 0xc3));
    assert_eq!(mmu.read_byte(0xc000), 0xc3);

    // Only 0xfe compares: its neighbours with the same upper bits do not.
    for byte in [0xf8u8, 0xf9, 0xfa, 0xfb, 0xff] {
        let (mut cpu, mut mmu) = machine(&[byte, 0x01]);
        let before = cpu.regs;
        assert_eq!(
            cpu.step(&mut mmu),
            Err(DecodeFailure::Unhandled {
                byte,
                is_cb: false,
                regs: Regs { pc: 0xc001, ..before },
            })
        );
    }
}

#[test]
fn test_unhandled_prefixed_opcode() {
    // prefix; RLC B
    let (mut cpu, mut mmu) = machine(&[0xcb, 0x00]);
    cpu.regs.b = 0x81;
    assert_eq!(cpu.step(&mut mmu), Ok(1));
    assert_eq!(
        cpu.step(&mut mmu),
        Err(DecodeFailure::Unhandled {
            byte: 0x00,
            is_cb: true,
            regs: Regs { b: 0x81, pc: 0xc002, sp: 0xfffe, ..Regs::default() },
        })
    );
    // The byte used up the prefix.
    assert_eq!(cpu.next_opcode_is_cb(), false);
    assert_eq!(cpu.regs.b, 0x81);
}

#[test]
fn test_handled_opcodes_counted() {
    let mut primary = 0;
    let mut prefixed = 0;
    for byte in 0..=255u8 {
        if let Some(entry) = Opcode::from(false, byte) {
            let (mut cpu, mut mmu) = machine(&[]);
            if cpu._run_opcode_un(&mut mmu, &entry).is_ok() {
                primary += 1;
            }
        }
        let entry = Opcode::from(true, byte).unwrap();
        let (mut cpu, mut mmu) = machine(&[]);
        if cpu._run_opcode_cb(&mut mmu, &entry).is_ok() {
            prefixed += 1;
        }
    }
    // NOP, 4 LD rp,nn, 4 loads and stores through pairs, 4 INC rp, 8 INC,
    // 8 DEC, 8 LD r,n, RLA, 4 JR cc, HALT and 63 LD r,r, 8 XOR, RET, 4 POP,
    // CALL, 4 PUSH, the prefix, LDH (n),A, LD (C),A and CP n.
    assert_eq!(primary, 1 + 4 + 4 + 4 + 8 + 8 + 8 + 1 + 4 + 64 + 8 + 1 + 4 + 1 + 4 + 1 + 2 + 1);
    // 8 RL and 64 BIT.
    assert_eq!(prefixed, 72);
}

#[test]
fn test_boot_clears_video_ram() {
    let mut mmu = Mmu::new();
    let mut cpu = Cpu::new();
    mmu.write_byte(0x8000, 0xff);
    mmu.write_byte(0x9abc, 0xff);
    mmu.write_byte(0x9fff, 0xff);
    let mut steps = 0;
    let mut cycles = 0;
    while cpu.regs.pc != 0x000c {
        cycles += cpu.step(&mut mmu).unwrap();
        steps += 1;
    }
    // Three instructions, then 8192 rounds of store, prefix, test and
    // jump; the last jump is not taken.
    assert_eq!(steps, 3 + 4 * 8192);
    assert_eq!(cycles, 7 + 7 * 8192 - 1);
    assert_eq!(
        cpu.regs,
        Regs { a: 0, f: 0xa0, h: 0x7f, l: 0xff, pc: 0x000c, sp: 0xfffe, ..Regs::default() }
    );
    for addr in 0x8000..=0x9fffu16 {
        assert_eq!(mmu.read_byte(addr), 0x00);
    }
}

#[test]
fn test_boot_runs_until_first_unhandled_opcode() {
    let mut mmu = Mmu::new();
    let mut cpu = Cpu::new();
    let mut steps = 0;
    let mut cycles = 0;
    let failure = loop {
        match cpu.step(&mut mmu) {
            Ok(n) => {
                cycles += n;
                steps += 1;
            }
            Err(failure) => break failure,
        }
    };
    // LD (0x9910),A at 0x0042.
    let regs =
        Regs { a: 0x19, f: 0xc0, b: 0, c: 0, d: 0x00, e: 0xe0, h: 0x81, l: 0xa0, pc: 0x0043, sp: 0xfffe };
    assert_eq!(failure, DecodeFailure::Unhandled { byte: 0xea, is_cb: false, regs });
    assert_eq!(cpu.regs, regs);
    assert_eq!(steps, 37_637);
    assert_eq!(cycles, 66_364);
    // The trademark sign was copied from the image, every second byte.
    let sign = [0x3cu8, 0x42, 0xb9, 0xa5, 0xb9, 0xa5, 0x42, 0x3c];
    for (i, byte) in sign.iter().enumerate() {
        assert_eq!(mmu.read_byte(0x8190 + 2 * i as u16), *byte);
        assert_eq!(mmu.read_byte(0x8191 + 2 * i as u16), 0x00);
    }
    // With no cartridge the logo reads as zeroes.
    for addr in 0x8010..0x8190u16 {
        assert_eq!(mmu.read_byte(addr), 0x00);
    }
    // The last return address is still on the stack.
    assert_eq!(mmu.read_word(0xfffc), 0x002e);
    assert_eq!(mmu.is_bios_mapped(), true);
}
