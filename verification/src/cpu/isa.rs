//! The instructions that the engine executes, and what each of them does to
//! the registers and to memory.
//!
//! An operand index 0 to 7 names B, C, D, E, H, L, the byte of memory at
//! HL, and A, in this order. A pair index 0 to 3 names BC, DE, HL and then
//! either SP or, for the stack instructions, AF. A condition index 0 to 3
//! names "Z clear", "Z set", "C clear" and "C set".

use vstd::prelude::*;
use crate::cpu::opcode::field_p;
use crate::cpu::opcode::field_q;
use crate::cpu::opcode::field_x;
use crate::cpu::opcode::field_y;
use crate::cpu::opcode::field_z;
use crate::cpu::regs::wrap16;
use crate::cpu::regs::wrap8;
use crate::cpu::regs::Flag;
use crate::cpu::regs::Regs;
use crate::mem::mmu::MmuView;

verus! {

/// An instruction with its operands, apart from how it is encoded.
pub enum Instr {
    /// NOP: does nothing.
    Nop,
    /// LD rp,nn: loads the 16-bit immediate into a pair (BC, DE, HL, SP).
    LdPairImm(u8),
    /// LD A,(BC): loads A from the byte at BC.
    LdAFromBc,
    /// LD A,(DE): loads A from the byte at DE.
    LdAFromDe,
    /// LD (HL+),A: stores A at HL, then increments HL.
    LdHlIncFromA,
    /// LD (HL-),A: stores A at HL, then decrements HL.
    LdHlDecFromA,
    /// INC rp: increments a pair (BC, DE, HL, SP).
    IncPair(u8),
    /// INC r: increments an operand.
    Inc(u8),
    /// DEC r: decrements an operand.
    Dec(u8),
    /// LD r,n: loads the 8-bit immediate into an operand.
    LdImm(u8),
    /// RLA: rotates A left through the carry flag.
    Rla,
    /// JR cc,d: adds the signed 8-bit immediate to PC if the condition holds.
    JrCond(u8),
    /// HALT: stops the processor.
    Halt,
    /// LD r,r': copies the second operand into the first.
    Ld(u8, u8),
    /// XOR r: combines A with an operand by exclusive or.
    Xor(u8),
    /// RET: pops PC from the stack.
    Ret,
    /// POP rp: pops a pair (BC, DE, HL, AF) from the stack.
    Pop(u8),
    /// CALL nn: pushes PC and jumps to the 16-bit immediate.
    Call,
    /// PUSH rp: pushes a pair (BC, DE, HL, AF) onto the stack.
    Push(u8),
    /// The prefix: the next byte is looked up in the prefixed space.
    Prefix,
    /// LDH (n),A: stores A at 0xff00 plus the 8-bit immediate.
    LdhImmFromA,
    /// LD (C),A: stores A at 0xff00 plus C.
    LdhCFromA,
    /// CP n: compares A with the 8-bit immediate.
    CpImm,
    /// RL r: rotates an operand left through the carry flag.
    Rl(u8),
    /// BIT b,r: tests bit `b` of an operand.
    Bit(u8, u8),
}

/// The instruction that `byte` encodes in the primary space, or `None`
/// where the engine executes none for it.
pub open spec fn decode_primary(byte: u8) -> Option<Instr> {
    let x = field_x(byte);
    let y = field_y(byte);
    let z = field_z(byte);
    let p = field_p(byte);
    let q = field_q(byte);
    if x == 0 && y == 0 && z == 0 {
        Some(Instr::Nop)
    } else if x == 0 && z == 1 && q == 0 {
        Some(Instr::LdPairImm(p))
    } else if x == 0 && z == 2 && p == 0 && q == 1 {
        Some(Instr::LdAFromBc)
    } else if x == 0 && z == 2 && p == 1 && q == 1 {
        Some(Instr::LdAFromDe)
    } else if x == 0 && z == 2 && p == 2 && q == 0 {
        Some(Instr::LdHlIncFromA)
    } else if x == 0 && z == 2 && p == 3 && q == 0 {
        Some(Instr::LdHlDecFromA)
    } else if x == 0 && z == 3 && q == 0 {
        Some(Instr::IncPair(p))
    } else if x == 0 && z == 4 {
        Some(Instr::Inc(y))
    } else if x == 0 && z == 5 {
        Some(Instr::Dec(y))
    } else if x == 0 && z == 6 {
        Some(Instr::LdImm(y))
    } else if x == 0 && y == 2 && z == 7 {
        Some(Instr::Rla)
    } else if x == 0 && y >= 4 && z == 0 {
        Some(Instr::JrCond((y - 4) as u8))
    } else if x == 1 && y == 6 && z == 6 {
        Some(Instr::Halt)
    } else if x == 1 {
        Some(Instr::Ld(y, z))
    } else if x == 2 && y == 5 {
        Some(Instr::Xor(z))
    } else if x == 3 && z == 1 && p == 0 && q == 1 {
        Some(Instr::Ret)
    } else if x == 3 && z == 1 && q == 0 {
        Some(Instr::Pop(p))
    } else if x == 3 && z == 5 && p == 0 && q == 1 {
        Some(Instr::Call)
    } else if x == 3 && z == 5 && q == 0 {
        Some(Instr::Push(p))
    } else if x == 3 && y == 1 && z == 3 {
        Some(Instr::Prefix)
    } else if x == 3 && y == 4 && z == 0 {
        Some(Instr::LdhImmFromA)
    } else if x == 3 && y == 4 && z == 2 {
        Some(Instr::LdhCFromA)
    } else if x == 3 && y == 7 && z == 6 {
        Some(Instr::CpImm)
    } else {
        None
    }
}

/// The instruction that `byte` encodes in the prefixed space, or `None`
/// where the engine executes none for it.
pub open spec fn decode_prefixed(byte: u8) -> Option<Instr> {
    let x = field_x(byte);
    let y = field_y(byte);
    let z = field_z(byte);
    if x == 0 && y == 2 {
        Some(Instr::Rl(z))
    } else if x == 1 {
        Some(Instr::Bit(y, z))
    } else {
        None
    }
}

/// The 8-bit immediate `d` read as a signed displacement.
pub open spec fn signed(d: u8) -> int {
    if d < 128 {
        d as int
    } else {
        d - 256
    }
}

/// The value of the operand with index `r`.
pub open spec fn reg8(regs: Regs, mem: MmuView, r: u8) -> u8 {
    if r == 0 {
        regs.b
    } else if r == 1 {
        regs.c
    } else if r == 2 {
        regs.d
    } else if r == 3 {
        regs.e
    } else if r == 4 {
        regs.h
    } else if r == 5 {
        regs.l
    } else if r == 6 {
        mem.read_byte(regs.hl())
    } else {
        regs.a
    }
}

/// The registers and memory after `val` was written to the operand with
/// index `r`.
pub open spec fn put_reg8(regs: Regs, mem: MmuView, r: u8, val: u8) -> (Regs, MmuView) {
    if r == 0 {
        (Regs { b: val, ..regs }, mem)
    } else if r == 1 {
        (Regs { c: val, ..regs }, mem)
    } else if r == 2 {
        (Regs { d: val, ..regs }, mem)
    } else if r == 3 {
        (Regs { e: val, ..regs }, mem)
    } else if r == 4 {
        (Regs { h: val, ..regs }, mem)
    } else if r == 5 {
        (Regs { l: val, ..regs }, mem)
    } else if r == 6 {
        (regs, mem.write_byte(regs.hl(), val))
    } else {
        (Regs { a: val, ..regs }, mem)
    }
}

/// The value of the pair with index `rp`: BC, DE, HL or SP.
pub open spec fn reg16(regs: Regs, rp: u8) -> u16 {
    if rp == 0 {
        regs.bc()
    } else if rp == 1 {
        regs.de()
    } else if rp == 2 {
        regs.hl()
    } else {
        regs.sp
    }
}

/// The registers after `val` was written to the pair with index `rp`: BC,
/// DE, HL or SP.
pub open spec fn put_reg16(regs: Regs, rp: u8, val: u16) -> Regs {
    if rp == 0 {
        regs.with_bc(val)
    } else if rp == 1 {
        regs.with_de(val)
    } else if rp == 2 {
        regs.with_hl(val)
    } else {
        Regs { sp: val, ..regs }
    }
}

/// The value of the pair with index `rp2`: BC, DE, HL or AF.
pub open spec fn stack_reg16(regs: Regs, rp2: u8) -> u16 {
    if rp2 == 0 {
        regs.bc()
    } else if rp2 == 1 {
        regs.de()
    } else if rp2 == 2 {
        regs.hl()
    } else {
        regs.af()
    }
}

/// The registers after `val` was written to the pair with index `rp2`: BC,
/// DE, HL or AF.
pub open spec fn put_stack_reg16(regs: Regs, rp2: u8, val: u16) -> Regs {
    if rp2 == 0 {
        regs.with_bc(val)
    } else if rp2 == 1 {
        regs.with_de(val)
    } else if rp2 == 2 {
        regs.with_hl(val)
    } else {
        regs.with_af(val)
    }
}

/// Whether the condition with index `cc` holds.
pub open spec fn condition(regs: Regs, cc: u8) -> bool {
    if cc == 0 {
        !regs.get_flag(Flag::Z)
    } else if cc == 1 {
        regs.get_flag(Flag::Z)
    } else if cc == 2 {
        !regs.get_flag(Flag::C)
    } else {
        regs.get_flag(Flag::C)
    }
}

/// Fetching a byte: the byte at PC, and the registers with PC moved past it.
pub open spec fn fetch_byte(regs: Regs, mem: MmuView) -> (Regs, u8) {
    (Regs { pc: wrap16(regs.pc + 1), ..regs }, mem.read_byte(regs.pc))
}

/// Fetching a 16-bit immediate: the value at PC, low byte first, and the
/// registers with PC moved past it.
pub open spec fn fetch_word(regs: Regs, mem: MmuView) -> (Regs, u16) {
    (Regs { pc: wrap16(regs.pc + 2), ..regs }, mem.read_word(regs.pc))
}

/// Pushing a 16-bit value: SP goes down by 2, then the value is written at
/// SP.
pub open spec fn push(regs: Regs, mem: MmuView, val: u16) -> (Regs, MmuView) {
    let sp = wrap16(regs.sp - 2);
    (Regs { sp, ..regs }, mem.write_word(sp, val))
}

/// Popping a 16-bit value: the value at SP, and the registers with SP up
/// by 2.
pub open spec fn pop(regs: Regs, mem: MmuView) -> (Regs, u16) {
    (Regs { sp: wrap16(regs.sp + 2), ..regs }, mem.read_word(regs.sp))
}

/// The registers after an increment of `n` to `r`: Z says whether `r` is
/// zero, N is clear, H says whether the low nibble of `n` was 0xf. C is
/// kept.
pub open spec fn inc_flags(regs: Regs, n: u8, r: u8) -> Regs {
    regs.with_flag(Flag::Z, r == 0).with_flag(Flag::N, false).with_flag(Flag::H, n % 16 == 15)
}

/// The registers after a decrement of `n` to `r`: Z says whether `r` is
/// zero, N is set, H says whether the low nibble of `n` was 0x0. C is kept.
pub open spec fn dec_flags(regs: Regs, n: u8, r: u8) -> Regs {
    regs.with_flag(Flag::Z, r == 0).with_flag(Flag::N, true).with_flag(Flag::H, n % 16 == 0)
}

/// The registers after A was combined with `d8` by exclusive or: A holds
/// the result, Z says whether it is zero, and N, H and C are clear.
pub open spec fn alu_xor(regs: Regs, d8: u8) -> Regs {
    let r = regs.a ^ d8;
    Regs { a: r, ..regs }.with_flag(Flag::Z, r == 0).with_flag(Flag::N, false).with_flag(
        Flag::H,
        false,
    ).with_flag(Flag::C, false)
}

/// The result of rotating `d8` left through the carry flag: bit 0 of the
/// result is the old carry and the other bits are those of `d8` moved up.
pub open spec fn rl_result(regs: Regs, d8: u8) -> u8 {
    wrap8(
        2 * d8 + if regs.get_flag(Flag::C) {
            1int
        } else {
            0int
        },
    )
}

/// The registers after `d8` was rotated left through the carry flag: Z
/// says whether the result is zero, N and H are clear, and C holds bit 7 of
/// `d8`.
pub open spec fn rl_flags(regs: Regs, d8: u8) -> Regs {
    regs.with_flag(Flag::Z, rl_result(regs, d8) == 0).with_flag(Flag::N, false).with_flag(
        Flag::C,
        d8 >= 128,
    ).with_flag(Flag::H, false)
}

/// The carry that a subtraction takes in: 1 if it is asked to use the carry
/// flag and the flag is set, else 0.
pub open spec fn borrow_in(regs: Regs, use_carry: bool) -> int {
    if use_carry && regs.get_flag(Flag::C) {
        1
    } else {
        0
    }
}

/// The registers after the flags were set as for the subtraction of `d8`
/// and the incoming carry from A: Z says whether the difference is zero
/// modulo 256, N is set, H says whether the low nibble borrowed, and C says
/// whether the whole byte borrowed. A is kept.
pub open spec fn sub_flags(regs: Regs, d8: u8, use_carry: bool) -> Regs {
    let c = borrow_in(regs, use_carry);
    let r = wrap8(regs.a - d8 - c);
    regs.with_flag(Flag::Z, r == 0).with_flag(Flag::H, regs.a % 16 < d8 % 16 + c).with_flag(
        Flag::N,
        true,
    ).with_flag(Flag::C, regs.a < d8 + c)
}

/// The registers after bit `bit` of `r` was tested: Z says whether the bit
/// is clear, N is clear and H is set. C is kept.
pub open spec fn bit_flags(regs: Regs, bit: u8, r: u8) -> Regs {
    regs.with_flag(Flag::Z, r & (1u8 << bit) == 0).with_flag(Flag::N, false).with_flag(
        Flag::H,
        true,
    )
}

/// What an instruction does.
pub struct Effect {
    /// The registers after the instruction.
    pub regs: Regs,
    /// Memory after the instruction.
    pub mem: MmuView,
    /// The instruction stops the processor.
    pub halt: bool,
    /// The instruction sends the next byte to the prefixed space.
    pub prefix: bool,
    /// `false` only for a conditional jump whose condition failed.
    pub taken: bool,
}

/// An effect on registers and memory alone.
pub open spec fn plain(regs: Regs, mem: MmuView) -> Effect {
    Effect { regs, mem, halt: false, prefix: false, taken: true }
}

/// What `instr` does, given the registers as they are once its first byte
/// was fetched, and memory.
pub open spec fn effect(instr: Instr, regs: Regs, mem: MmuView) -> Effect {
    match instr {
        Instr::Nop => plain(regs, mem),
        Instr::LdPairImm(p) => {
            let (fetched, nn) = fetch_word(regs, mem);
            plain(put_reg16(fetched, p, nn), mem)
        },
        Instr::LdAFromBc => plain(Regs { a: mem.read_byte(regs.bc()), ..regs }, mem),
        Instr::LdAFromDe => plain(Regs { a: mem.read_byte(regs.de()), ..regs }, mem),
        Instr::LdHlIncFromA => plain(
            regs.with_hl(wrap16(regs.hl() + 1)),
            mem.write_byte(regs.hl(), regs.a),
        ),
        Instr::LdHlDecFromA => plain(
            regs.with_hl(wrap16(regs.hl() - 1)),
            mem.write_byte(regs.hl(), regs.a),
        ),
        Instr::IncPair(p) => plain(put_reg16(regs, p, wrap16(reg16(regs, p) + 1)), mem),
        Instr::Inc(y) => {
            let n = reg8(regs, mem, y);
            let r = wrap8(n + 1);
            let (stored, written) = put_reg8(regs, mem, y, r);
            plain(inc_flags(stored, n, r), written)
        },
        Instr::Dec(y) => {
            let n = reg8(regs, mem, y);
            let r = wrap8(n - 1);
            let (stored, written) = put_reg8(regs, mem, y, r);
            plain(dec_flags(stored, n, r), written)
        },
        Instr::LdImm(y) => {
            let (fetched, n) = fetch_byte(regs, mem);
            let (stored, written) = put_reg8(fetched, mem, y, n);
            plain(stored, written)
        },
        Instr::Rla => {
            let rotated = rl_flags(regs, regs.a);
            plain(Regs { a: rl_result(regs, regs.a), ..rotated }, mem)
        },
        Instr::JrCond(cc) => {
            let (fetched, d) = fetch_byte(regs, mem);
            if condition(fetched, cc) {
                plain(Regs { pc: wrap16(fetched.pc + signed(d)), ..fetched }, mem)
            } else {
                Effect { taken: false, ..plain(fetched, mem) }
            }
        },
        Instr::Halt => Effect { halt: true, ..plain(regs, mem) },
        Instr::Ld(y, z) => {
            let (stored, written) = put_reg8(regs, mem, y, reg8(regs, mem, z));
            plain(stored, written)
        },
        Instr::Xor(z) => plain(alu_xor(regs, reg8(regs, mem, z)), mem),
        Instr::Ret => {
            let (popped, nn) = pop(regs, mem);
            plain(Regs { pc: nn, ..popped }, mem)
        },
        Instr::Pop(p) => {
            let (popped, nn) = pop(regs, mem);
            plain(put_stack_reg16(popped, p, nn), mem)
        },
        Instr::Call => {
            let (fetched, nn) = fetch_word(regs, mem);
            let (pushed, written) = push(fetched, mem, fetched.pc);
            plain(Regs { pc: nn, ..pushed }, written)
        },
        Instr::Push(p) => {
            let (pushed, written) = push(regs, mem, stack_reg16(regs, p));
            plain(pushed, written)
        },
        Instr::Prefix => Effect { prefix: true, ..plain(regs, mem) },
        Instr::LdhImmFromA => {
            let (fetched, n) = fetch_byte(regs, mem);
            plain(fetched, mem.write_byte((0xff00 + n) as u16, regs.a))
        },
        Instr::LdhCFromA => plain(regs, mem.write_byte((0xff00 + regs.c) as u16, regs.a)),
        Instr::CpImm => {
            let (fetched, n) = fetch_byte(regs, mem);
            plain(sub_flags(fetched, n, false), mem)
        },
        Instr::Rl(z) => {
            let n = reg8(regs, mem, z);
            let (stored, written) = put_reg8(rl_flags(regs, n), mem, z, rl_result(regs, n));
            plain(stored, written)
        },
        Instr::Bit(y, z) => plain(bit_flags(regs, y, reg8(regs, mem, z)), mem),
    }
}

} // verus!
