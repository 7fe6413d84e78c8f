//! Laws of the instruction set: what holds of an instruction whatever the
//! registers and memory are.

use vstd::prelude::*;
use crate::cpu::cpu::CpuView;
use crate::cpu::cpu::DecodeFailure;
use crate::cpu::cpu::Outcome;
use crate::cpu::isa::alu_xor;
use crate::cpu::isa::condition;
use crate::cpu::isa::dec_flags;
use crate::cpu::isa::decode_prefixed;
use crate::cpu::isa::decode_primary;
use crate::cpu::isa::effect;
use crate::cpu::isa::fetch_byte;
use crate::cpu::isa::fetch_word;
use crate::cpu::isa::inc_flags;
use crate::cpu::isa::put_reg8;
use crate::cpu::isa::reg16;
use crate::cpu::isa::reg8;
use crate::cpu::isa::rl_flags;
use crate::cpu::isa::rl_result;
use crate::cpu::isa::signed;
use crate::cpu::isa::stack_reg16;
use crate::cpu::isa::sub_flags;
use crate::cpu::isa::Instr;
use crate::cpu::opcode::cost_of;
use crate::cpu::opcode::lemma_alt_cost;
use crate::cpu::opcode::Opcode;
use crate::cpu::regs::high;
use crate::cpu::regs::lemma_flag_put;
use crate::cpu::regs::lemma_flags_keep_nibble;
use crate::cpu::regs::lemma_low_nibble_clear;
use crate::cpu::regs::lemma_word_bytes;
use crate::cpu::regs::lemma_wrap;
use crate::cpu::regs::low;
use crate::cpu::regs::wrap16;
use crate::cpu::regs::wrap8;
use crate::cpu::regs::Flag;
use crate::cpu::regs::Regs;
use crate::mem::mmu::is_ram;
use crate::mem::mmu::lemma_byte_round_trip;
use crate::mem::mmu::lemma_write_is_local;
use crate::mem::mmu::lemma_write_keeps_shape;
use crate::mem::mmu::MmuView;

verus! {

proof fn lemma_low_nibble(n: u8)
    by (bit_vector)
    ensures
        n & 0x0f == n % 16,
        n ^ n == 0,
{
}

/// The flags after an increment and after a decrement of any byte `v`. The
/// result wraps modulo 256. Z is set iff the result is zero. N is cleared
/// by an increment and set by a decrement. H is set iff the low nibble of
/// `v` was 0xf before an increment, 0x0 before a decrement. C keeps its
/// value.
pub proof fn lemma_inc_dec_flags(regs: Regs, v: u8)
    ensures
        ({
            let r = wrap8(v + 1);
            let after = inc_flags(regs, v, r);
            &&& r == if v == 0xff { 0 } else { v + 1 }
            &&& after.get_flag(Flag::Z) == (r == 0)
            &&& !after.get_flag(Flag::N)
            &&& after.get_flag(Flag::H) == (v & 0x0f == 0x0f)
            &&& after.get_flag(Flag::C) == regs.get_flag(Flag::C)
            &&& after == Regs { f: after.f, ..regs }
        }),
        ({
            let r = wrap8(v - 1);
            let after = dec_flags(regs, v, r);
            &&& r == if v == 0x00 { 0xff } else { v - 1 }
            &&& after.get_flag(Flag::Z) == (r == 0)
            &&& after.get_flag(Flag::N)
            &&& after.get_flag(Flag::H) == (v & 0x0f == 0x00)
            &&& after.get_flag(Flag::C) == regs.get_flag(Flag::C)
            &&& after == Regs { f: after.f, ..regs }
        }),
{
    lemma_low_nibble(v);
    lemma_wrap(0, 0, v + 1);
    lemma_wrap(0, 0, v - 1);
    let i1 = regs.with_flag(Flag::Z, wrap8(v + 1) == 0);
    let i2 = i1.with_flag(Flag::N, false);
    lemma_flag_put(regs.f, Flag::Z, wrap8(v + 1) == 0);
    lemma_flag_put(i1.f, Flag::N, false);
    lemma_flag_put(i2.f, Flag::H, v % 16 == 15);
    let d1 = regs.with_flag(Flag::Z, wrap8(v - 1) == 0);
    let d2 = d1.with_flag(Flag::N, true);
    lemma_flag_put(regs.f, Flag::Z, wrap8(v - 1) == 0);
    lemma_flag_put(d1.f, Flag::N, true);
    lemma_flag_put(d2.f, Flag::H, v % 16 == 0);
}

/// INC and DEC of a register leave the wrapped result in that register and
/// set the flags as an increment or a decrement does.
pub proof fn lemma_inc_dec_register(regs: Regs, mem: MmuView, y: u8)
    requires
        y < 8,
        y != 6,
    ensures
        ({
            let v = reg8(regs, mem, y);
            let after = effect(Instr::Inc(y), regs, mem);
            &&& reg8(after.regs, after.mem, y) == wrap8(v + 1)
            &&& after.regs.f == inc_flags(regs, v, wrap8(v + 1)).f
            &&& after.mem == mem
        }),
        ({
            let v = reg8(regs, mem, y);
            let after = effect(Instr::Dec(y), regs, mem);
            &&& reg8(after.regs, after.mem, y) == wrap8(v - 1)
            &&& after.regs.f == dec_flags(regs, v, wrap8(v - 1)).f
            &&& after.mem == mem
        }),
{
}

/// INC of a pair adds one modulo 65536, so that 0xffff becomes 0x0000, and
/// touches no flag and no memory.
pub proof fn lemma_inc_pair(regs: Regs, mem: MmuView, p: u8)
    requires
        p < 4,
    ensures
        ({
            let after = effect(Instr::IncPair(p), regs, mem);
            &&& reg16(after.regs, p) == wrap16(reg16(regs, p) + 1)
            &&& reg16(regs, p) == 0xffff ==> reg16(after.regs, p) == 0x0000
            &&& reg16(regs, p) != 0xffff ==> reg16(after.regs, p) == reg16(regs, p) + 1
            &&& after.regs.f == regs.f
            &&& after.regs.a == regs.a
            &&& after.regs.pc == regs.pc
            &&& after.mem == mem
        }),
{
    let v = wrap16(reg16(regs, p) + 1);
    lemma_word_bytes(v, 0, 0);
    lemma_wrap(0, 0, reg16(regs, p) + 1);
}

/// XOR of A with itself leaves 0x00 in A, sets Z and clears N, H and C,
/// whatever A held.
pub proof fn lemma_xor_self(regs: Regs, mem: MmuView)
    ensures
        ({
            let after = alu_xor(regs, regs.a);
            &&& after.a == 0x00
            &&& after.get_flag(Flag::Z)
            &&& !after.get_flag(Flag::N)
            &&& !after.get_flag(Flag::H)
            &&& !after.get_flag(Flag::C)
            &&& after == Regs { a: after.a, f: after.f, ..regs }
        }),
        effect(Instr::Xor(7), regs, mem).regs == alu_xor(regs, regs.a),
        effect(Instr::Xor(7), regs, mem).mem == mem,
{
    lemma_low_nibble(regs.a);
    let r0 = Regs { a: 0, ..regs };
    let r1 = r0.with_flag(Flag::Z, true);
    let r2 = r1.with_flag(Flag::N, false);
    let r3 = r2.with_flag(Flag::H, false);
    lemma_flag_put(r0.f, Flag::Z, true);
    lemma_flag_put(r1.f, Flag::N, false);
    lemma_flag_put(r2.f, Flag::H, false);
    lemma_flag_put(r3.f, Flag::C, false);
}

/// A conditional relative jump reads its displacement in either case. If
/// the condition holds, PC becomes the address after the displacement plus
/// the signed displacement, modulo 65536. If it fails, PC stays at the
/// address after the displacement. Nothing else changes.
pub proof fn lemma_jump_relative(regs: Regs, mem: MmuView, cc: u8)
    requires
        cc < 4,
    ensures
        ({
            let (fetched, d) = fetch_byte(regs, mem);
            let after = effect(Instr::JrCond(cc), regs, mem);
            &&& after.taken == condition(regs, cc)
            &&& after.taken ==> after.regs == Regs { pc: wrap16(fetched.pc + signed(d)), ..regs }
            &&& !after.taken ==> after.regs == Regs { pc: fetched.pc, ..regs }
            &&& after.mem == mem
            &&& !after.halt
            &&& !after.prefix
        }),
{
}

/// The cost of a conditional relative jump: the entry's alternate cost,
/// which is the lower one, when the condition fails, and its base cost
/// when the jump is taken.
pub proof fn lemma_jump_cost(cpu: CpuView, mem: MmuView, opcode: Opcode, cc: u8)
    requires
        opcode.inv(),
        !opcode.is_cb(),
        decode_primary(opcode.raw()) == Some(Instr::JrCond(cc)),
    ensures
        opcode.ncycles().1 < opcode.ncycles().0,
        opcode.ncycles() == (3usize, 2usize),
        cpu.run_un(mem, opcode).result == Ok::<usize, DecodeFailure>(
            if condition(cpu.regs, cc) {
                opcode.ncycles().0
            } else {
                opcode.ncycles().1
            },
        ),
        cpu.run_un(mem, opcode).cpu.regs == effect(Instr::JrCond(cc), cpu.regs, mem).regs,
{
}

/// A stack cell keeps the byte `val`: there is RAM at `addr`, or the byte
/// read at `addr` is `val` already.
pub open spec fn keeps(mem: MmuView, addr: u16, val: u8) -> bool {
    is_ram(addr) || mem.read_byte(addr) == val
}

/// PUSH of a pair and then POP of the same pair restore every register, SP
/// among them, where the two bytes below SP keep what is pushed. For AF the
/// unused lower nibble of F has to be zero, as it is in every register file
/// that the engine produces.
pub proof fn lemma_push_pop(regs: Regs, mem: MmuView, p: u8)
    requires
        p < 4,
        mem.wf(),
        p == 3 ==> regs.wf(),
        keeps(mem, wrap16(regs.sp - 2), low(stack_reg16(regs, p))),
        keeps(mem, wrap16(regs.sp - 1), high(stack_reg16(regs, p))),
    ensures
        ({
            let pushed = effect(Instr::Push(p), regs, mem);
            let popped = effect(Instr::Pop(p), pushed.regs, pushed.mem);
            &&& pushed.regs == Regs { sp: wrap16(regs.sp - 2), ..regs }
            &&& stack_reg16(popped.regs, p) == stack_reg16(regs, p)
            &&& popped.regs.sp == regs.sp
            &&& popped.regs == regs
            &&& popped.mem == pushed.mem
        }),
{
    let val = stack_reg16(regs, p);
    let a0 = wrap16(regs.sp - 2);
    let a1 = wrap16(a0 + 1);
    lemma_wrap(0, 0, regs.sp - 2);
    lemma_wrap(0, 0, regs.sp - 1);
    lemma_wrap(0, 0, a0 + 1);
    lemma_wrap(0, 0, a0 + 2);
    assert(a1 == wrap16(regs.sp - 1));
    assert(wrap16(a0 + 2) == regs.sp);
    let m1 = mem.write_byte(a0, low(val));
    let m2 = m1.write_byte(a1, high(val));
    lemma_write_keeps_shape(mem, a0, low(val), val);
    lemma_byte_round_trip(mem, a0, low(val));
    lemma_byte_round_trip(m1, a1, high(val));
    lemma_write_is_local(m1, a1, high(val), a0);
    lemma_write_is_local(mem, a0, low(val), a1);
    assert(m2.read_byte(a0) == low(val));
    assert(m2.read_byte(a1) == high(val));
    lemma_word_bytes(val, 0, 0);
    lemma_word_bytes(0, regs.b, regs.c);
    lemma_word_bytes(0, regs.d, regs.e);
    lemma_word_bytes(0, regs.h, regs.l);
    lemma_word_bytes(0, regs.a, regs.f);
    lemma_low_nibble_clear(regs.f);
}

/// CALL and then RET come back to the byte after the operand of the call
/// with SP where it was, where the two bytes below SP keep the return
/// address. In between, PC is the target of the call and the return address
/// lies on the stack.
pub proof fn lemma_call_ret(regs: Regs, mem: MmuView)
    requires
        mem.wf(),
        keeps(mem, wrap16(regs.sp - 2), low(wrap16(regs.pc + 2))),
        keeps(mem, wrap16(regs.sp - 1), high(wrap16(regs.pc + 2))),
    ensures
        ({
            let called = effect(Instr::Call, regs, mem);
            let returned = effect(Instr::Ret, called.regs, called.mem);
            &&& called.regs == Regs { pc: mem.read_word(regs.pc), sp: wrap16(regs.sp - 2), ..regs }
            &&& called.mem == mem.write_word(wrap16(regs.sp - 2), wrap16(regs.pc + 2))
            &&& returned.regs == Regs { pc: wrap16(regs.pc + 2), ..regs }
            &&& returned.mem == called.mem
        }),
{
    let val = wrap16(regs.pc + 2);
    let a0 = wrap16(regs.sp - 2);
    let a1 = wrap16(a0 + 1);
    lemma_wrap(0, 0, regs.sp - 2);
    lemma_wrap(0, 0, regs.sp - 1);
    lemma_wrap(0, 0, a0 + 1);
    lemma_wrap(0, 0, a0 + 2);
    let m1 = mem.write_byte(a0, low(val));
    let m2 = m1.write_byte(a1, high(val));
    lemma_write_keeps_shape(mem, a0, low(val), val);
    lemma_byte_round_trip(mem, a0, low(val));
    lemma_byte_round_trip(m1, a1, high(val));
    lemma_write_is_local(m1, a1, high(val), a0);
    lemma_write_is_local(mem, a0, low(val), a1);
    assert(m2.read_byte(a0) == low(val));
    assert(m2.read_byte(a1) == high(val));
    lemma_word_bytes(val, 0, 0);
}

/// A rotation to the left through the carry moves every bit up by one
/// place: the old carry comes in as bit 0 and bit 7 goes out into the new
/// carry. So twice the byte plus the old carry is the result plus 256 times
/// the new carry. Z is set iff the result is zero; N and H are cleared.
pub proof fn lemma_rotate_left(regs: Regs, d8: u8)
    ensures
        ({
            let carry_in: int = if regs.get_flag(Flag::C) { 1 } else { 0 };
            let result = rl_result(regs, d8);
            let after = rl_flags(regs, d8);
            let carry_out: int = if after.get_flag(Flag::C) { 1 } else { 0 };
            &&& 2 * d8 + carry_in == result + 256 * carry_out
            &&& after.get_flag(Flag::Z) == (result == 0)
            &&& !after.get_flag(Flag::N)
            &&& !after.get_flag(Flag::H)
            &&& after == Regs { f: after.f, ..regs }
        }),
{
    let carry_in: int = if regs.get_flag(Flag::C) { 1 } else { 0 };
    let result = rl_result(regs, d8);
    lemma_wrap(0, 0, 2 * d8 + carry_in);
    let r1 = regs.with_flag(Flag::Z, result == 0);
    let r2 = r1.with_flag(Flag::N, false);
    let r3 = r2.with_flag(Flag::C, d8 >= 128);
    lemma_flag_put(regs.f, Flag::Z, result == 0);
    lemma_flag_put(r1.f, Flag::N, false);
    lemma_flag_put(r2.f, Flag::C, d8 >= 128);
    lemma_flag_put(r3.f, Flag::H, false);
}

/// A comparison leaves A as it is and sets the flags of the subtraction:
/// Z iff A equals the operand, C iff A is below it, H iff the low nibble of
/// A is below that of the operand, and N always.
pub proof fn lemma_compare(regs: Regs, d8: u8)
    ensures
        ({
            let after = sub_flags(regs, d8, false);
            &&& after == Regs { f: after.f, ..regs }
            &&& after.get_flag(Flag::Z) == (regs.a == d8)
            &&& after.get_flag(Flag::N)
            &&& after.get_flag(Flag::H) == (regs.a % 16 < d8 % 16)
            &&& after.get_flag(Flag::C) == (regs.a < d8)
        }),
{
    let r = wrap8(regs.a - d8);
    lemma_wrap(0, 0, regs.a - d8);
    let r1 = regs.with_flag(Flag::Z, r == 0);
    let r2 = r1.with_flag(Flag::H, regs.a % 16 < d8 % 16 + 0);
    let r3 = r2.with_flag(Flag::N, true);
    lemma_flag_put(regs.f, Flag::Z, r == 0);
    lemma_flag_put(r1.f, Flag::H, regs.a % 16 < d8 % 16 + 0);
    lemma_flag_put(r2.f, Flag::N, true);
    lemma_flag_put(r3.f, Flag::C, regs.a < d8 + 0);
}

/// The no-operation changes no register and no byte of memory, and costs
/// one cycle; a step that fetches it moves PC by exactly 1.
pub proof fn lemma_nop(cpu: CpuView, mem: MmuView, opcode: Opcode)
    requires
        opcode.raw() == 0x00,
        !opcode.is_cb(),
    ensures
        cpu.run_un(mem, opcode) == (Outcome { cpu, mem, result: Ok(1) }),
        !cpu.is_halted && !cpu.next_opcode_is_cb && mem.read_byte(cpu.regs.pc) == 0x00
            ==> cpu.spec_step(mem) == (Outcome {
            cpu: CpuView {
                regs: Regs { pc: wrap16(cpu.regs.pc + 1), ..cpu.regs },
                curr_opcode: Some(opcode),
                ..cpu
            },
            mem,
            result: Ok(1),
        }),
{
    assert(decode_primary(0x00) == Some(Instr::Nop));
    assert(cost_of(false, 0x00) == Some((1usize, 1usize)));
    assert(Opcode::spec_from(false, 0x00) == Some(opcode));
}

/// Writing an operand keeps every region of memory at its size and does not
/// touch the flag of the boot image, the display, or the flag byte.
pub proof fn lemma_put_reg8_keeps(regs: Regs, mem: MmuView, r: u8, val: u8)
    requires
        mem.wf(),
    ensures
        ({
            let (stored, written) = put_reg8(regs, mem, r, val);
            &&& written.wf()
            &&& written.bios_mapped == mem.bios_mapped
            &&& written.gpu.timing == mem.gpu.timing
            &&& written.gpu.frame == mem.gpu.frame
            &&& stored.f == regs.f
        }),
{
    lemma_write_keeps_shape(mem, regs.hl(), val, 0);
}

/// What no instruction does to memory: it never maps or unmaps the boot
/// image, never moves the display or draws, and keeps every region of
/// memory at its size.
pub proof fn lemma_effect_keeps_memory(instr: Instr, regs: Regs, mem: MmuView)
    requires
        mem.wf(),
    ensures
        ({
            let after = effect(instr, regs, mem);
            &&& after.mem.wf()
            &&& after.mem.bios_mapped == mem.bios_mapped
            &&& after.mem.gpu.timing == mem.gpu.timing
            &&& after.mem.gpu.frame == mem.gpu.frame
        }),
{
    match instr {
        Instr::LdHlIncFromA | Instr::LdHlDecFromA => {
            lemma_write_keeps_shape(mem, regs.hl(), regs.a, 0);
        },
        Instr::Inc(y) => {
            lemma_put_reg8_keeps(regs, mem, y, wrap8(reg8(regs, mem, y) + 1));
        },
        Instr::Dec(y) => {
            lemma_put_reg8_keeps(regs, mem, y, wrap8(reg8(regs, mem, y) - 1));
        },
        Instr::LdImm(y) => {
            let (fetched, n) = fetch_byte(regs, mem);
            lemma_put_reg8_keeps(fetched, mem, y, n);
        },
        Instr::Ld(y, z) => {
            lemma_put_reg8_keeps(regs, mem, y, reg8(regs, mem, z));
        },
        Instr::Call => {
            let (fetched, nn) = fetch_word(regs, mem);
            lemma_write_keeps_shape(mem, wrap16(fetched.sp - 2), 0, fetched.pc);
        },
        Instr::Push(p) => {
            lemma_write_keeps_shape(mem, wrap16(regs.sp - 2), 0, stack_reg16(regs, p));
        },
        Instr::LdhImmFromA => {
            let (fetched, n) = fetch_byte(regs, mem);
            lemma_write_keeps_shape(mem, (0xff00 + n) as u16, regs.a, 0);
        },
        Instr::LdhCFromA => {
            lemma_write_keeps_shape(mem, (0xff00 + regs.c) as u16, regs.a, 0);
        },
        Instr::Rl(z) => {
            let n = reg8(regs, mem, z);
            lemma_put_reg8_keeps(rl_flags(regs, n), mem, z, rl_result(regs, n));
        },
        _ => {},
    }
}

/// No instruction sets a bit in the unused lower nibble of F.
pub proof fn lemma_effect_keeps_nibble(instr: Instr, regs: Regs, mem: MmuView)
    requires
        regs.wf(),
    ensures
        effect(instr, regs, mem).regs.wf(),
{
    lemma_flags_keep_nibble();
    match instr {
        Instr::Pop(p) => {
            lemma_low_nibble_clear(low(mem.read_word(regs.sp)));
        },
        _ => {},
    }
}

/// What holds of every step. A halted processor stays halted, changes
/// nothing and takes one cycle. A step never maps or unmaps the boot image,
/// never moves the display, and keeps memory and the registers well formed.
/// A step that succeeds takes between one and six cycles. A step that fails
/// has fetched the byte it reports and has done nothing else.
pub proof fn lemma_step_invariants(cpu: CpuView, mem: MmuView)
    requires
        mem.wf(),
        cpu.curr_opcode matches Some(opcode) ==> opcode.inv(),
    ensures
        ({
            let after = cpu.spec_step(mem);
            &&& after.mem.wf()
            &&& after.mem.bios_mapped == mem.bios_mapped
            &&& after.mem.gpu.timing == mem.gpu.timing
            &&& after.mem.gpu.frame == mem.gpu.frame
            &&& cpu.regs.wf() ==> after.cpu.regs.wf()
            &&& cpu.is_halted ==> after == (Outcome { cpu, mem, result: Ok(1) })
            &&& after.cpu.curr_opcode matches Some(opcode) ==> opcode.inv()
            &&& after.result matches Ok(ncycles) ==> 1 <= ncycles <= 6
            &&& after.result matches Err(failure) ==> {
                &&& after.mem == mem
                &&& !cpu.is_halted
                &&& after.cpu.regs == fetch_byte(cpu.regs, mem).0
                &&& after.cpu.is_halted == cpu.is_halted
                &&& match failure {
                    DecodeFailure::Unmapped { byte, is_cb, regs } => {
                        &&& byte == mem.read_byte(cpu.regs.pc)
                        &&& is_cb == cpu.next_opcode_is_cb
                        &&& regs == after.cpu.regs
                        &&& cost_of(is_cb, byte) is None
                    },
                    DecodeFailure::Unhandled { byte, is_cb, regs } => {
                        &&& byte == mem.read_byte(cpu.regs.pc)
                        &&& is_cb == cpu.next_opcode_is_cb
                        &&& regs == after.cpu.regs
                        &&& cost_of(is_cb, byte) is Some
                    },
                }
            }
        }),
{
    if !cpu.is_halted {
        let (regs, byte) = fetch_byte(cpu.regs, mem);
        let is_cb = cpu.next_opcode_is_cb;
        if cost_of(is_cb, byte) is Some {
            lemma_alt_cost(is_cb, byte);
            let instr = if is_cb {
                decode_prefixed(byte)
            } else {
                decode_primary(byte)
            };
            if instr is Some {
                lemma_effect_keeps_memory(instr.unwrap(), regs, mem);
                if regs.wf() {
                    lemma_effect_keeps_nibble(instr.unwrap(), regs, mem);
                }
            }
        }
    }
}

} // verus!
