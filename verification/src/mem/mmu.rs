//! The memory interconnect: one 16-bit address space over the boot image,
//! video RAM, working RAM with its echo, and high RAM.
//!
//! | Range           | Region                           |
//! |-----------------|----------------------------------|
//! | 0x0000..=0x00ff | boot image, while it is mapped   |
//! | 0x8000..=0x9fff | video RAM, kept by the video unit |
//! | 0xc000..=0xdfff | working RAM                      |
//! | 0xe000..=0xfdff | echo of working RAM              |
//! | 0xff80..=0xfffe | high RAM                         |
//!
//! Every other address has nothing behind it: it reads as 0x00 and writes
//! to it are discarded.

use vstd::prelude::*;
use crate::cpu::regs::high;
use crate::cpu::regs::lemma_join_bits;
use crate::cpu::regs::lemma_word_bits;
use crate::cpu::regs::lemma_word_bytes;
use crate::cpu::regs::lemma_wrap;
use crate::cpu::regs::low;
use crate::cpu::regs::word;
use crate::cpu::regs::wrap16;
use crate::mem::bios::BIOS;
use crate::vid::gpu::Gpu;
use crate::vid::gpu::GpuView;
use crate::vid::gpu::VRAM_BEG_ADDR;
use crate::vid::gpu::VRAM_END_ADDR;

verus! {

/// First address of the boot image.
pub const BIOS_BEG_ADDR: u16 = 0x0000;

/// Last address of the boot image.
pub const BIOS_END_ADDR: u16 = 0x00ff;

/// First address of working RAM.
pub const WRAM_BEG_ADDR: u16 = 0xc000;

/// Last address of working RAM.
pub const WRAM_END_ADDR: u16 = 0xdfff;

/// Size of working RAM in bytes.
pub const WRAM_LEN: usize = 8192;

/// First address of the echo of working RAM.
pub const RRAM_BEG_ADDR: u16 = 0xe000;

/// Last address of the echo of working RAM. The echo is shorter than working
/// RAM: the last 512 bytes of working RAM have no echo.
pub const RRAM_END_ADDR: u16 = 0xfdff;

/// First address of high RAM.
pub const ZRAM_BEG_ADDR: u16 = 0xff80;

/// Last address of high RAM.
pub const ZRAM_END_ADDR: u16 = 0xfffe;

/// Size of high RAM in bytes.
pub const ZRAM_LEN: usize = 127;

/// `addr` lies in the range of the boot image.
pub open spec fn in_bios(addr: u16) -> bool {
    BIOS_BEG_ADDR <= addr <= BIOS_END_ADDR
}

/// `addr` lies in video RAM.
pub open spec fn in_vram(addr: u16) -> bool {
    VRAM_BEG_ADDR <= addr <= VRAM_END_ADDR
}

/// `addr` lies in working RAM.
pub open spec fn in_wram(addr: u16) -> bool {
    WRAM_BEG_ADDR <= addr <= WRAM_END_ADDR
}

/// `addr` lies in the echo of working RAM.
pub open spec fn in_rram(addr: u16) -> bool {
    RRAM_BEG_ADDR <= addr <= RRAM_END_ADDR
}

/// `addr` lies in high RAM.
pub open spec fn in_zram(addr: u16) -> bool {
    ZRAM_BEG_ADDR <= addr <= ZRAM_END_ADDR
}

/// `addr` has a cell of RAM behind it.
pub open spec fn is_ram(addr: u16) -> bool {
    in_vram(addr) || in_wram(addr) || in_rram(addr) || in_zram(addr)
}

/// What the interconnect holds: whether the boot image is mapped, the
/// contents of working RAM and of high RAM, and the video unit.
pub struct MmuView {
    pub bios_mapped: bool,
    pub wram: Seq<u8>,
    pub zram: Seq<u8>,
    pub gpu: GpuView,
}

impl MmuView {
    /// The interconnect at power-on: the boot image is mapped, all RAM is
    /// zeroed, and the video unit is in its power-on state.
    pub open spec fn powered_on() -> MmuView {
        MmuView {
            bios_mapped: true,
            wram: Seq::new(WRAM_LEN as nat, |i: int| 0u8),
            zram: Seq::new(ZRAM_LEN as nat, |i: int| 0u8),
            gpu: GpuView::powered_on(),
        }
    }

    /// Every region has its full size.
    pub open spec fn wf(self) -> bool {
        &&& self.wram.len() == WRAM_LEN
        &&& self.zram.len() == ZRAM_LEN
        &&& self.gpu.wf()
    }

    /// The byte that a read at `addr` returns.
    pub open spec fn read_byte(self, addr: u16) -> u8 {
        if self.bios_mapped && in_bios(addr) {
            BIOS@[addr - BIOS_BEG_ADDR]
        } else if in_vram(addr) {
            self.gpu.read_byte(addr)
        } else if in_wram(addr) {
            self.wram[addr - WRAM_BEG_ADDR]
        } else if in_rram(addr) {
            self.wram[addr - RRAM_BEG_ADDR]
        } else if in_zram(addr) {
            self.zram[addr - ZRAM_BEG_ADDR]
        } else {
            0x00
        }
    }

    /// The interconnect after `val` was written at `addr`.
    pub open spec fn write_byte(self, addr: u16, val: u8) -> MmuView {
        if in_vram(addr) {
            MmuView { gpu: self.gpu.write_byte(addr, val), ..self }
        } else if in_wram(addr) {
            MmuView { wram: self.wram.update(addr - WRAM_BEG_ADDR, val), ..self }
        } else if in_rram(addr) {
            MmuView { wram: self.wram.update(addr - RRAM_BEG_ADDR, val), ..self }
        } else if in_zram(addr) {
            MmuView { zram: self.zram.update(addr - ZRAM_BEG_ADDR, val), ..self }
        } else {
            self
        }
    }

    /// The 16-bit value that a read at `addr` returns: the low byte is at
    /// `addr`, the high byte at the address after it.
    pub open spec fn read_word(self, addr: u16) -> u16 {
        word(self.read_byte(wrap16(addr + 1)), self.read_byte(addr))
    }

    /// The interconnect after the 16-bit value `d16` was written at `addr`:
    /// first the low byte at `addr`, then the high byte at the address
    /// after it.
    pub open spec fn write_word(self, addr: u16, d16: u16) -> MmuView {
        self.write_byte(addr, low(d16)).write_byte(wrap16(addr + 1), high(d16))
    }

    /// The interconnect after the boot image was unmapped.
    pub open spec fn unmap_bios(self) -> MmuView {
        MmuView { bios_mapped: false, ..self }
    }
}

/// The memory interconnect. It owns working RAM, high RAM and the flag that
/// says whether the boot image is mapped, and it holds the video unit, to
/// which accesses to video RAM are handed on.
pub struct Mmu {
    pub(crate) is_bios_mapped: bool,
    pub(crate) wram: [u8; WRAM_LEN],
    pub(crate) zram: [u8; ZRAM_LEN],
    pub gpu: Gpu,
}

impl View for Mmu {
    type V = MmuView;

    open(crate) spec fn view(&self) -> MmuView {
        MmuView {
            bios_mapped: self.is_bios_mapped,
            wram: self.wram@,
            zram: self.zram@,
            gpu: self.gpu@,
        }
    }
}

impl Mmu {
    /// Creates the interconnect at power-on: the boot image is mapped, all
    /// RAM is zeroed, and the video unit is in its power-on state.
    pub fn new() -> (r: Mmu)
        ensures
            r@ == MmuView::powered_on(),
            r@.wf(),
    {
        let mmu = Mmu {
            is_bios_mapped: true,
            wram: [0x00; WRAM_LEN],
            zram: [0x00; ZRAM_LEN],
            gpu: Gpu::new(),
        };
        assert(mmu@.wram =~= MmuView::powered_on().wram);
        assert(mmu@.zram =~= MmuView::powered_on().zram);
        mmu
    }

    /// The view of an interconnect is well formed.
    pub proof fn lemma_view_wf(&self)
        ensures
            self@.wf(),
    {
    }

    /// Returns `true` iff the boot image is mapped.
    pub fn is_bios_mapped(&self) -> (r: bool)
        ensures
            r == self@.bios_mapped,
    {
        self.is_bios_mapped
    }

    /// Removes the boot image from memory. It cannot be mapped again.
    pub fn unmap_bios(&mut self)
        ensures
            final(self)@ == old(self)@.unmap_bios(),
    {
        self.is_bios_mapped = false;
    }

    /// Reads the byte at `addr`; returns 0x00 where nothing is mapped.
    pub fn read_byte(&self, addr: u16) -> (r: u8)
        ensures
            r == self@.read_byte(addr),
    {
        match (self.is_bios_mapped, addr) {
            (true, BIOS_BEG_ADDR..=BIOS_END_ADDR) => BIOS[(addr - BIOS_BEG_ADDR) as usize],
            (_, VRAM_BEG_ADDR..=VRAM_END_ADDR) => self.gpu.read_byte(addr),
            (_, WRAM_BEG_ADDR..=WRAM_END_ADDR) => self.wram[(addr - WRAM_BEG_ADDR) as usize],
            (_, RRAM_BEG_ADDR..=RRAM_END_ADDR) => self.wram[(addr - RRAM_BEG_ADDR) as usize],
            (_, ZRAM_BEG_ADDR..=ZRAM_END_ADDR) => self.zram[(addr - ZRAM_BEG_ADDR) as usize],
            // Nothing is mapped here. A machine booted without a cartridge
            // reads the logo as zeroes and shows it black.
            _ => 0x00,
        }
    }

    /// Reads the 16-bit value at `addr`, low byte first; an unmapped byte
    /// reads as 0x00.
    pub fn read_word(&self, addr: u16) -> (r: u16)
        ensures
            r == self@.read_word(addr),
    {
        let lsb = self.read_byte(addr) as u16;
        let msb = self.read_byte(addr.wrapping_add(1)) as u16;
        proof {
            lemma_wrap(0, addr, 1);
            lemma_join_bits(msb as u8, lsb as u8);
        }
        (msb << 8) | lsb
    }

    /// Writes `val` into memory at `addr`. A write to an address with no
    /// RAM behind it is discarded.
    pub fn write_byte(&mut self, addr: u16, val: u8)
        ensures
            final(self)@ == old(self)@.write_byte(addr, val),
    {
        match addr {
            VRAM_BEG_ADDR..=VRAM_END_ADDR => {
                self.gpu.write_byte(addr, val);
            },
            WRAM_BEG_ADDR..=WRAM_END_ADDR => {
                self.wram[(addr - WRAM_BEG_ADDR) as usize] = val;
            },
            RRAM_BEG_ADDR..=RRAM_END_ADDR => {
                self.wram[(addr - RRAM_BEG_ADDR) as usize] = val;
            },
            ZRAM_BEG_ADDR..=ZRAM_END_ADDR => {
                self.zram[(addr - ZRAM_BEG_ADDR) as usize] = val;
            },
            _ => {},
        }
    }

    /// Writes the 16-bit value `d16` into memory at `addr`, low byte first.
    pub fn write_word(&mut self, addr: u16, d16: u16)
        ensures
            final(self)@ == old(self)@.write_word(addr, d16),
    {
        let lsb = (d16 & 0x00ff) as u8;
        let msb = ((d16 >> 8) & 0x00ff) as u8;
        proof {
            lemma_wrap(0, addr, 1);
            lemma_word_bits(d16);
        }
        self.write_byte(addr, lsb);
        self.write_byte(addr.wrapping_add(1), msb);
    }
}

/// Writes keep every region at its size, and never touch the flag of the
/// boot image, the display timing or the framebuffer.
pub proof fn lemma_write_keeps_shape(m: MmuView, addr: u16, val: u8, d16: u16)
    requires
        m.wf(),
    ensures
        m.write_byte(addr, val).wf(),
        m.write_word(addr, d16).wf(),
        m.write_byte(addr, val).bios_mapped == m.bios_mapped,
        m.write_word(addr, d16).bios_mapped == m.bios_mapped,
        m.write_byte(addr, val).gpu.timing == m.gpu.timing,
        m.write_word(addr, d16).gpu.timing == m.gpu.timing,
        m.write_byte(addr, val).gpu.frame == m.gpu.frame,
        m.write_word(addr, d16).gpu.frame == m.gpu.frame,
{
}

/// A byte written to RAM is read back at the same address; a write to an
/// address with no RAM behind it changes nothing.
pub proof fn lemma_byte_round_trip(m: MmuView, addr: u16, val: u8)
    requires
        m.wf(),
    ensures
        is_ram(addr) ==> m.write_byte(addr, val).read_byte(addr) == val,
        !is_ram(addr) ==> m.write_byte(addr, val) == m,
{
}

/// A write changes what is read at another address only where the two
/// addresses are a cell of working RAM and its echo.
pub proof fn lemma_write_is_local(m: MmuView, addr: u16, val: u8, other: u16)
    requires
        m.wf(),
        other != addr,
        !(in_wram(addr) && other == addr + 0x2000),
        !(in_rram(addr) && other == addr - 0x2000),
    ensures
        m.write_byte(addr, val).read_byte(other) == m.read_byte(other),
{
}

/// A 16-bit value written where both of its bytes have RAM behind them is
/// read back unchanged. This holds in working RAM, in its echo, in high RAM
/// and in video RAM, and across the borders between them.
pub proof fn lemma_word_round_trip(m: MmuView, addr: u16, d16: u16)
    requires
        m.wf(),
        is_ram(addr),
        is_ram(wrap16(addr + 1)),
    ensures
        m.write_word(addr, d16).read_word(addr) == d16,
{
    let next = wrap16(addr + 1);
    let m1 = m.write_byte(addr, low(d16));
    lemma_write_keeps_shape(m, addr, low(d16), d16);
    lemma_byte_round_trip(m1, next, high(d16));
    lemma_byte_round_trip(m, addr, low(d16));
    lemma_wrap(0, addr, 1);
    lemma_write_is_local(m1, next, high(d16), addr);
    lemma_word_bytes(d16, 0, 0);
}

/// The echo mirrors working RAM: a byte written through the echo is read at
/// the address 0x2000 below it, and a byte written to a cell of working RAM
/// that has an echo is read at the address 0x2000 above it.
pub proof fn lemma_echo_aliases(m: MmuView, addr: u16, val: u8)
    requires
        m.wf(),
    ensures
        in_rram(addr) ==> m.write_byte(addr, val).read_byte((addr - 0x2000) as u16) == val,
        in_rram((addr + 0x2000) as u16) && in_wram(addr) ==> m.write_byte(addr, val).read_byte(
            (addr + 0x2000) as u16,
        ) == val,
{
}

/// While the boot image is mapped, a read in its range returns its byte,
/// the first being 0x31. Once it is unmapped the same addresses read as
/// 0x00, and neither a write nor a second unmapping brings it back.
pub proof fn lemma_bios_lifecycle(m: MmuView, addr: u16, val: u8, d16: u16)
    requires
        m.wf(),
    ensures
        m.bios_mapped ==> m.read_byte(0x0000) == 0x31,
        m.bios_mapped && in_bios(addr) ==> m.read_byte(addr) == BIOS@[addr as int],
        in_bios(addr) ==> m.unmap_bios().read_byte(addr) == 0x00,
        !m.unmap_bios().bios_mapped,
        !m.unmap_bios().unmap_bios().bios_mapped,
        !m.unmap_bios().write_byte(addr, val).bios_mapped,
        !m.unmap_bios().write_word(addr, d16).bios_mapped,
        !in_bios(addr) ==> m.unmap_bios().read_byte(addr) == m.read_byte(addr),
{
}

} // verus!
