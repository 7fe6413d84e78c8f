//! The execution engine: one fetch, decode and execute per step.

use vstd::prelude::*;
use crate::cpu::isa::alu_xor;
use crate::cpu::isa::condition;
use crate::cpu::isa::decode_prefixed;
use crate::cpu::isa::decode_primary;
use crate::cpu::isa::effect;
use crate::cpu::isa::fetch_byte;
use crate::cpu::isa::fetch_word;
use crate::cpu::isa::pop;
use crate::cpu::isa::push;
use crate::cpu::isa::put_reg16;
use crate::cpu::isa::put_reg8;
use crate::cpu::isa::put_stack_reg16;
use crate::cpu::isa::reg16;
use crate::cpu::isa::reg8;
use crate::cpu::isa::rl_flags;
use crate::cpu::isa::rl_result;
use crate::cpu::isa::signed;
use crate::cpu::isa::stack_reg16;
use crate::cpu::isa::sub_flags;
use crate::cpu::isa::Effect;
use crate::cpu::isa::Instr;
use crate::cpu::opcode::Opcode;
use crate::cpu::regs::lemma_wrap;
use crate::cpu::regs::Flag;
use crate::cpu::regs::Regs;
use crate::mem::mmu::Mmu;
use crate::mem::mmu::MmuView;

verus! {

/// Why a step could not execute an instruction. The engine never runs a
/// no-operation in place of a byte it cannot execute: it stops and reports
/// the byte, the space it was read in, and the registers at that moment,
/// with PC already past the byte.
#[derive(Copy, Clone, Debug, PartialEq, Eq)]
pub enum DecodeFailure {
    /// The byte has no entry in the opcode table.
    Unmapped { byte: u8, is_cb: bool, regs: Regs },
    /// The byte has an entry, but the engine has no instruction for it.
    Unhandled { byte: u8, is_cb: bool, regs: Regs },
}

/// The processor.
pub struct Cpu {
    pub(crate) is_halted: bool,
    pub(crate) next_opcode_is_cb: bool,
    pub(crate) curr_opcode: Option<Opcode>,
    pub regs: Regs,
}

/// What the processor holds: whether it has halted, whether the next byte
/// belongs to the prefixed space, the entry that was decoded last, and the
/// registers.
pub struct CpuView {
    pub is_halted: bool,
    pub next_opcode_is_cb: bool,
    pub curr_opcode: Option<Opcode>,
    pub regs: Regs,
}

impl View for Cpu {
    type V = CpuView;

    open(crate) spec fn view(&self) -> CpuView {
        CpuView {
            is_halted: self.is_halted,
            next_opcode_is_cb: self.next_opcode_is_cb,
            curr_opcode: self.curr_opcode,
            regs: self.regs,
        }
    }
}

/// A processor, memory, and what a step or an instruction returned.
pub struct Outcome {
    pub cpu: CpuView,
    pub mem: MmuView,
    pub result: Result<usize, DecodeFailure>,
}

proof fn lemma_nibble_bits(n: u8)
    by (bit_vector)
    ensures
        n & 0x0f == n % 16,
{
}

proof fn lemma_rotate_bits(d8: u8)
    by (bit_vector)
    ensures
        d8 << 1 == (2 * d8) % 256,
        d8 << 1 <= 254,
        ((d8 & 0x80) >> 7 == 0x01) == (d8 >= 128),
{
}

proof fn lemma_displace_bits(pc: u16, d: u8)
    by (bit_vector)
    ensures
        d < 128 ==> d as i8 == d,
        d >= 128 ==> d as i8 == d - 256,
        d < 128 ==> ((pc as i32 + d as i32) as u16) == (pc + d) % 65536,
        d >= 128 && pc + d >= 256  ==> ((pc as i32 + (d as i32 - 256)) as u16) == pc + d - 256,
        d >= 128 && pc + d < 256  ==> ((pc as i32 + (d as i32 - 256)) as u16) == pc + d - 256 + 65536,
{
}

impl CpuView {
    /// The processor at power-on: running, in the primary space, with every
    /// register zero.
    pub open spec fn powered_on() -> CpuView {
        CpuView {
            is_halted: false,
            next_opcode_is_cb: false,
            curr_opcode: None,
            regs: Regs::zeroed(),
        }
    }

    /// The processor with its registers replaced.
    pub open spec fn with_regs(self, regs: Regs) -> CpuView {
        CpuView { regs, ..self }
    }

    /// The processor after an instruction had the effect `e`.
    pub open spec fn after(self, e: Effect) -> CpuView {
        CpuView {
            is_halted: self.is_halted || e.halt,
            next_opcode_is_cb: self.next_opcode_is_cb || e.prefix,
            regs: e.regs,
            ..self
        }
    }

    /// Executing the entry `opcode`, read in the space that `is_cb`
    /// selects, as the instruction `instr`. Where there is no instruction,
    /// nothing changes and the failure is reported. Else the instruction
    /// takes effect and the cost is the base cost of the entry, or its
    /// alternate cost for a conditional jump that was not taken.
    pub open spec fn run(
        self,
        mem: MmuView,
        opcode: Opcode,
        is_cb: bool,
        instr: Option<Instr>,
    ) -> Outcome {
        match instr {
            None => Outcome {
                cpu: self,
                mem,
                result: Err(
                    DecodeFailure::Unhandled { byte: opcode.raw(), is_cb, regs: self.regs },
                ),
            },
            Some(i) => {
                let e = effect(i, self.regs, mem);
                Outcome {
                    cpu: self.after(e),
                    mem: e.mem,
                    result: Ok(
                        if e.taken {
                            opcode.ncycles().0
                        } else {
                            opcode.ncycles().1
                        },
                    ),
                }
            },
        }
    }

    /// Executing `opcode` as an instruction of the primary space.
    pub open spec fn run_un(self, mem: MmuView, opcode: Opcode) -> Outcome {
        self.run(mem, opcode, false, decode_primary(opcode.raw()))
    }

    /// Executing `opcode` as an instruction of the prefixed space.
    pub open spec fn run_cb(self, mem: MmuView, opcode: Opcode) -> Outcome {
        self.run(mem, opcode, true, decode_prefixed(opcode.raw()))
    }

    /// One step. A halted processor idles for one cycle. A running one
    /// fetches the byte at PC, looks it up in the prefixed space if the
    /// instruction before was the prefix and in the primary space if not,
    /// and executes the entry; the choice of the prefixed space lasts for
    /// this one byte.
    pub open spec fn spec_step(self, mem: MmuView) -> Outcome {
        if self.is_halted {
            Outcome { cpu: self, mem, result: Ok(1) }
        } else {
            let (regs, byte) = fetch_byte(self.regs, mem);
            let entry = Opcode::spec_from(self.next_opcode_is_cb, byte);
            let fetched = CpuView { regs, curr_opcode: entry, ..self };
            match entry {
                None => Outcome {
                    cpu: fetched,
                    mem,
                    result: Err(
                        DecodeFailure::Unmapped { byte, is_cb: self.next_opcode_is_cb, regs },
                    ),
                },
                Some(opcode) => if self.next_opcode_is_cb {
                    CpuView { next_opcode_is_cb: false, ..fetched }.run_cb(mem, opcode)
                } else {
                    fetched.run_un(mem, opcode)
                },
            }
        }
    }
}

impl Cpu {
    /// Creates the processor at power-on.
    pub fn new() -> (r: Cpu)
        ensures
            r@ == CpuView::powered_on(),
    {
        Cpu {
            is_halted: false,
            next_opcode_is_cb: false,
            curr_opcode: None,
            regs: Regs::default(),
        }
    }

    /// Whether the processor has halted. A halted processor stays halted.
    pub fn is_halted(&self) -> (r: bool)
        ensures
            r == self@.is_halted,
    {
        self.is_halted
    }

    /// Whether the next byte will be looked up in the prefixed space.
    pub fn next_opcode_is_cb(&self) -> (r: bool)
        ensures
            r == self@.next_opcode_is_cb,
    {
        self.next_opcode_is_cb
    }

    /// The entry that the last step decoded, if it decoded one.
    pub fn curr_opcode(&self) -> (r: Option<Opcode>)
        ensures
            r == self@.curr_opcode,
    {
        self.curr_opcode
    }

    /// Steps the processor through one fetch, decode and execute. Returns
    /// the cycles that passed, or the failure to decode.
    pub fn step(&mut self, mmu: &mut Mmu) -> (r: Result<usize, DecodeFailure>)
        ensures
            old(self)@.spec_step(old(mmu)@) == (Outcome {
                cpu: final(self)@,
                mem: final(mmu)@,
                result: r,
            }),
    {
        // A halted processor makes no further progress: it idles, one
        // cycle per step.
        if self.is_halted {
            return Ok(1);
        }
        let byte = self._fetch_next_byte(mmu);
        self.curr_opcode = Opcode::from(self.next_opcode_is_cb, byte);
        match self.curr_opcode {
            None => Err(
                DecodeFailure::Unmapped { byte, is_cb: self.next_opcode_is_cb, regs: self.regs },
            ),
            Some(opcode) => {
                if self.next_opcode_is_cb {
                    self.next_opcode_is_cb = false;
                    self._run_opcode_cb(mmu, &opcode)
                } else {
                    self._run_opcode_un(mmu, &opcode)
                }
            },
        }
    }

    // Fetches the byte at PC and moves PC past it.
    fn _fetch_next_byte(&mut self, mmu: &Mmu) -> (r: u8)
        ensures
            final(self)@ == old(self)@.with_regs(fetch_byte(old(self)@.regs, mmu@).0),
            r == fetch_byte(old(self)@.regs, mmu@).1,
    {
        let res = mmu.read_byte(self.regs.pc);
        proof {
            lemma_wrap(0, self.regs.pc, 1);
        }
        self.regs.pc = u16::wrapping_add(self.regs.pc, 1);
        res
    }

    // Fetches the 16-bit value at PC and moves PC past it.
    fn _fetch_next_word(&mut self, mmu: &Mmu) -> (r: u16)
        ensures
            final(self)@ == old(self)@.with_regs(fetch_word(old(self)@.regs, mmu@).0),
            r == fetch_word(old(self)@.regs, mmu@).1,
    {
        let res = mmu.read_word(self.regs.pc);
        proof {
            lemma_wrap(0, self.regs.pc, 2);
        }
        self.regs.pc = u16::wrapping_add(self.regs.pc, 2);
        res
    }

    /// Runs an entry as an instruction of the prefixed space.
    pub fn _run_opcode_cb(&mut self, mmu: &mut Mmu, opcode: &Opcode) -> (r: Result<
        usize,
        DecodeFailure,
    >)
        ensures
            old(self)@.run_cb(old(mmu)@, *opcode) == (Outcome {
                cpu: final(self)@,
                mem: final(mmu)@,
                result: r,
            }),
    {
        let ncycles = opcode.ncycles().0;
        match (opcode.x(), opcode.y()) {
            (0, 2) => {
                // RL r[z]
                let n = self._get_r8_from_r(mmu, opcode.z());
                let n = self._alu_rl(n);
                self._set_r8_from_r(mmu, opcode.z(), n);
            },
            (1, _) => {
                // BIT y, r[z]
                let r = self._get_r8_from_r(mmu, opcode.z());
                self.regs.set_flag(Flag::Z, (r & (1 << opcode.y())) == 0);
                self.regs.set_flag(Flag::N, false);
                self.regs.set_flag(Flag::H, true);
            },
            _ => {
                return Err(
                    DecodeFailure::Unhandled {
                        byte: opcode.raw(),
                        is_cb: true,
                        regs: self.regs,
                    },
                );
            },
        };
        Ok(ncycles)
    }

    /// Runs an entry as an instruction of the primary space.
    pub fn _run_opcode_un(&mut self, mmu: &mut Mmu, opcode: &Opcode) -> (r: Result<
        usize,
        DecodeFailure,
    >)
        ensures
            old(self)@.run_un(old(mmu)@, *opcode) == (Outcome {
                cpu: final(self)@,
                mem: final(mmu)@,
                result: r,
            }),
    {
        // A conditional jump that is not taken costs less than the entry's
        // base cost; the arm of the jump below lowers the count then.
        let mut ncycles = opcode.ncycles().0;
        match (opcode.x(), opcode.y(), opcode.z(), opcode.p(), opcode.q()) {
            (0, 0, 0, _, _) => {
                // NOP
            },
            (0, _, 1, _, 0) => {
                // LD rp[p], nn
                let nn = self._fetch_next_word(mmu);
                self._set_r16_from_rp(mmu, opcode.p(), nn);
            },
            (0, _, 2, 0, 1) => {
                // LD A,(BC)
                self.regs.a = mmu.read_byte(self.regs.bc());
            },
            (0, _, 2, 1, 1) => {
                // LD A,(DE)
                self.regs.a = mmu.read_byte(self.regs.de());
            },
            (0, _, 2, 2, 0) => {
                // LD (HL+), A
                mmu.write_byte(self.regs.hl(), self.regs.a);
                self.regs.inc_hl();
            },
            (0, _, 2, 3, 0) => {
                // LD (HL-), A
                mmu.write_byte(self.regs.hl(), self.regs.a);
                self.regs.dec_hl();
            },
            (0, _, 3, _, 0) => {
                // INC rp[p]
                let nn = self._get_r16_from_rp(mmu, opcode.p());
                let rp = u16::wrapping_add(nn, 1);
                proof {
                    lemma_wrap(0, nn, 1);
                }
                self._set_r16_from_rp(mmu, opcode.p(), rp);
            },
            (0, _, 4, _, _) => {
                // INC r[y]
                let n = self._get_r8_from_r(mmu, opcode.y());
                let r = u8::wrapping_add(n, 1);
                proof {
                    lemma_wrap(n, 0, 1);
                    lemma_nibble_bits(n);
                }
                self._set_r8_from_r(mmu, opcode.y(), r);
                self.regs.set_flag(Flag::Z, r == 0);
                self.regs.set_flag(Flag::N, false);
                self.regs.set_flag(Flag::H, (n & 0x0f) == 0x0f);
            },
            (0, _, 5, _, _) => {
                // DEC r[y]
                let n = self._get_r8_from_r(mmu, opcode.y());
                let r = u8::wrapping_sub(n, 1);
                proof {
                    lemma_wrap(n, 0, 1);
                    lemma_nibble_bits(n);
                }
                self._set_r8_from_r(mmu, opcode.y(), r);
                self.regs.set_flag(Flag::Z, r == 0);
                self.regs.set_flag(Flag::N, true);
                self.regs.set_flag(Flag::H, (n & 0x0f) == 0x00);
            },
            (0, _, 6, _, _) => {
                // LD r[y], n
                let n = self._fetch_next_byte(mmu);
                self._set_r8_from_r(mmu, opcode.y(), n);
            },
            (0, 2, 7, _, _) => {
                // RLA
                let n = self._alu_rl(self.regs.a);
                self._set_r8_from_r(mmu, opcode.z(), n);
            },
            (0, 4..=7, 0, _, _) => {
                // JR cc[y-4], d
                let d8 = self._fetch_next_byte(mmu) as i8;
                let pc = i32::wrapping_add(self.regs.pc as i32, d8 as i32) as u16;
                proof {
                    let d = fetch_byte(old(self)@.regs, old(mmu)@).1;
                    lemma_displace_bits(self.regs.pc, d);
                    lemma_wrap(0, 0, self.regs.pc + signed(d));
                }
                if self._get_res_from_cc(opcode.y() - 4) {
                    self.regs.pc = pc;
                } else {
                    ncycles = opcode.ncycles().1;
                }
            },
            (1, 6, 6, _, _) => {
                // HALT
                self.is_halted = true;
            },
            (1, _, _, _, _) => {
                // LD r[y], r[z]
                let r = self._get_r8_from_r(mmu, opcode.z());
                self._set_r8_from_r(mmu, opcode.y(), r);
            },
            (2, 5, _, _, _) => {
                // XOR r[z]
                let r = self._get_r8_from_r(mmu, opcode.z());
                self._alu_xor(r);
            },
            (3, _, 1, 0, 1) => {
                // RET
                self.regs.pc = self._stack_pop(mmu);
            },
            (3, _, 1, _, 0) => {
                // POP rp2[p]
                let nn = self._stack_pop(mmu);
                self._set_r16_from_rp2(mmu, opcode.p(), nn);
            },
            (3, _, 5, 0, 1) => {
                // CALL nn
                let nn = self._fetch_next_word(mmu);
                self._stack_push(mmu, self.regs.pc);
                self.regs.pc = nn;
            },
            (3, _, 5, _, 0) => {
                // PUSH rp2[p]
                let nn = self._get_r16_from_rp2(mmu, opcode.p());
                self._stack_push(mmu, nn);
            },
            (3, 1, 3, _, _) => {
                // The prefix: the next byte belongs to the prefixed space.
                self.next_opcode_is_cb = true;
            },
            (3, 4, 0, _, _) => {
                // LD (0xff00 + n),A
                let n = self._fetch_next_byte(mmu) as u16;
                mmu.write_byte(0xff00 + n, self.regs.a);
            },
            (3, 4, 2, _, _) => {
                // LD (0xff00 + C),A
                mmu.write_byte(0xff00 + (self.regs.c as u16), self.regs.a);
            },
            (3, 7, 6, _, _) => {
                // CP d8
                let n = self._fetch_next_byte(mmu);
                self._alu_cp(n);
            },
            _ => {
                return Err(
                    DecodeFailure::Unhandled {
                        byte: opcode.raw(),
                        is_cb: false,
                        regs: self.regs,
                    },
                );
            },
        };
        Ok(ncycles)
    }

    /// Compares A with `d8`: the flags are set as for the subtraction of
    /// `d8` from A, and the difference is discarded.
    pub fn _alu_cp(&mut self, d8: u8)
        ensures
            final(self)@ == old(self)@.with_regs(sub_flags(old(self)@.regs, d8, false)),
    {
        self._alu_sub(d8, false);
    }

    /// Rotates `d8` left through the carry flag and returns the result. Z
    /// is set from the result, N and H are cleared, and C takes bit 7 of
    /// `d8`.
    pub fn _alu_rl(&mut self, d8: u8) -> (r: u8)
        ensures
            final(self)@ == old(self)@.with_regs(rl_flags(old(self)@.regs, d8)),
            r == rl_result(old(self)@.regs, d8),
    {
        proof {
            lemma_rotate_bits(d8);
            lemma_wrap(0, 0, 2 * d8);
            lemma_wrap(0, 0, 2 * d8 + 1);
        }
        let c = ((d8 & 0x80) >> 7) == 0x01;
        let carry: u8 = if self.regs.get_flag(Flag::C) {
            1
        } else {
            0
        };
        let r = (d8 << 1) + carry;
        self.regs.set_flag(Flag::Z, r == 0x00);
        self.regs.set_flag(Flag::N, false);
        self.regs.set_flag(Flag::C, c);
        self.regs.set_flag(Flag::H, false);
        r
    }

    /// Sets the flags as for the subtraction of `d8` from A, and of the
    /// carry flag too where `use_carry` asks for it. A keeps its value.
    pub fn _alu_sub(&mut self, d8: u8, use_carry: bool)
        ensures
            final(self)@ == old(self)@.with_regs(sub_flags(old(self)@.regs, d8, use_carry)),
    {
        let c: u8 = if use_carry && self.regs.get_flag(Flag::C) {
            1
        } else {
            0
        };
        let a = self.regs.a;
        let r = a.wrapping_sub(d8).wrapping_sub(c);
        proof {
            lemma_nibble_bits(a);
            lemma_nibble_bits(d8);
            lemma_wrap(0, 0, a - d8 - c);
        }
        self.regs.set_flag(Flag::Z, r == 0);
        self.regs.set_flag(Flag::H, (a & 0x0f) < ((d8 & 0x0f) + c));
        self.regs.set_flag(Flag::N, true);
        self.regs.set_flag(Flag::C, (a as u16) < ((d8 as u16) + (c as u16)));
    }

    /// Combines A with `d8` by exclusive or. Z is set from the result; N, H
    /// and C are cleared.
    pub fn _alu_xor(&mut self, d8: u8)
        ensures
            final(self)@ == old(self)@.with_regs(alu_xor(old(self)@.regs, d8)),
    {
        self.regs.a ^= d8;
        self.regs.set_flag(Flag::Z, self.regs.a == 0);
        self.regs.set_flag(Flag::N, false);
        self.regs.set_flag(Flag::H, false);
        self.regs.set_flag(Flag::C, false);
    }

    // Whether the condition with index `cc` holds.
    fn _get_res_from_cc(&self, cc: u8) -> (r: bool)
        requires
            cc < 4,
        ensures
            r == condition(self@.regs, cc),
    {
        match cc {
            0 => self.regs.get_flag(Flag::Z) == false,
            1 => self.regs.get_flag(Flag::Z) != false,
            2 => self.regs.get_flag(Flag::C) == false,
            _ => self.regs.get_flag(Flag::C) != false,
        }
    }

    // Reads the operand with index `r`.
    fn _get_r8_from_r(&self, mmu: &Mmu, r: u8) -> (res: u8)
        requires
            r < 8,
        ensures
            res == reg8(self@.regs, mmu@, r),
    {
        match r {
            0 => self.regs.b,
            1 => self.regs.c,
            2 => self.regs.d,
            3 => self.regs.e,
            4 => self.regs.h,
            5 => self.regs.l,
            6 => mmu.read_byte(self.regs.hl()),
            _ => self.regs.a,
        }
    }

    // Reads the pair with index `rp`: BC, DE, HL or SP.
    fn _get_r16_from_rp(&mut self, mmu: &mut Mmu, rp: u8) -> (res: u16)
        requires
            rp < 4,
        ensures
            res == reg16(old(self)@.regs, rp),
            *final(self) == *old(self),
            *final(mmu) == *old(mmu),
    {
        match rp {
            0 => self.regs.bc(),
            1 => self.regs.de(),
            2 => self.regs.hl(),
            _ => self.regs.sp,
        }
    }

    // Reads the pair with index `rp2`: BC, DE, HL or AF.
    fn _get_r16_from_rp2(&mut self, mmu: &mut Mmu, rp2: u8) -> (res: u16)
        requires
            rp2 < 4,
        ensures
            res == stack_reg16(old(self)@.regs, rp2),
            *final(self) == *old(self),
            *final(mmu) == *old(mmu),
    {
        match rp2 {
            0 => self.regs.bc(),
            1 => self.regs.de(),
            2 => self.regs.hl(),
            _ => self.regs.af(),
        }
    }

    // Writes the operand with index `r`.
    fn _set_r8_from_r(&mut self, mmu: &mut Mmu, r: u8, val: u8)
        requires
            r < 8,
        ensures
            final(self)@ == old(self)@.with_regs(put_reg8(old(self)@.regs, old(mmu)@, r, val).0),
            final(mmu)@ == put_reg8(old(self)@.regs, old(mmu)@, r, val).1,
    {
        match r {
            0 => self.regs.b = val,
            1 => self.regs.c = val,
            2 => self.regs.d = val,
            3 => self.regs.e = val,
            4 => self.regs.h = val,
            5 => self.regs.l = val,
            6 => mmu.write_byte(self.regs.hl(), val),
            _ => self.regs.a = val,
        };
    }

    // Writes the pair with index `rp`: BC, DE, HL or SP.
    fn _set_r16_from_rp(&mut self, mmu: &mut Mmu, rp: u8, val: u16)
        requires
            rp < 4,
        ensures
            final(self)@ == old(self)@.with_regs(put_reg16(old(self)@.regs, rp, val)),
            *final(mmu) == *old(mmu),
    {
        match rp {
            0 => self.regs.set_bc(val),
            1 => self.regs.set_de(val),
            2 => self.regs.set_hl(val),
            _ => self.regs.sp = val,
        };
    }

    // Writes the pair with index `rp2`: BC, DE, HL or AF.
    fn _set_r16_from_rp2(&mut self, mmu: &mut Mmu, rp2: u8, val: u16)
        requires
            rp2 < 4,
        ensures
            final(self)@ == old(self)@.with_regs(put_stack_reg16(old(self)@.regs, rp2, val)),
            *final(mmu) == *old(mmu),
    {
        match rp2 {
            0 => self.regs.set_bc(val),
            1 => self.regs.set_de(val),
            2 => self.regs.set_hl(val),
            _ => self.regs.set_af(val),
        };
    }

    // Pushes `word`: SP goes down by 2, then the value is written at SP.
    fn _stack_push(&mut self, mmu: &mut Mmu, word: u16)
        ensures
            final(self)@ == old(self)@.with_regs(push(old(self)@.regs, old(mmu)@, word).0),
            final(mmu)@ == push(old(self)@.regs, old(mmu)@, word).1,
    {
        proof {
            lemma_wrap(0, self.regs.sp, 2);
        }
        self.regs.sp = u16::wrapping_sub(self.regs.sp, 2);
        mmu.write_word(self.regs.sp, word);
    }

    // Pops a 16-bit value: the value at SP is read, then SP goes up by 2.
    fn _stack_pop(&mut self, mmu: &mut Mmu) -> (r: u16)
        ensures
            final(self)@ == old(self)@.with_regs(pop(old(self)@.regs, old(mmu)@).0),
            r == pop(old(self)@.regs, old(mmu)@).1,
            *final(mmu) == *old(mmu),
    {
        let res = mmu.read_word(self.regs.sp);
        proof {
            lemma_wrap(0, self.regs.sp, 2);
        }
        self.regs.sp = u16::wrapping_add(self.regs.sp, 2);
        res
    }
}

impl Default for Cpu {
    /// The processor at power-on.
    fn default() -> (r: Cpu)
        ensures
            r@ == CpuView::powered_on(),
    {
        Cpu::new()
    }
}

} // verus!
