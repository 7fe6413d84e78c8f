//! The register file: eight 8-bit registers, the program counter, the stack
//! pointer, and the four condition flags kept in the upper nibble of `F`.

use vstd::prelude::*;

verus! {

// The five functions below are opaque, so that proofs which only move bytes
// and words around are not burdened with division and remainder. A proof
// that needs their values reveals them, or calls one of the lemmas after
// them.

/// The 16-bit value whose high byte is `msb` and whose low byte is `lsb`.
#[verifier::opaque]
pub open spec fn word(msb: u8, lsb: u8) -> u16 {
    (msb as int * 256 + lsb as int) as u16
}

/// The high byte of a 16-bit value.
#[verifier::opaque]
pub open spec fn high(w: u16) -> u8 {
    (w / 256) as u8
}

/// The low byte of a 16-bit value.
#[verifier::opaque]
pub open spec fn low(w: u16) -> u8 {
    (w % 256) as u8
}

/// `i` reduced modulo 256.
#[verifier::opaque]
pub open spec fn wrap8(i: int) -> u8 {
    (i % 256) as u8
}

/// `i` reduced modulo 65536.
#[verifier::opaque]
pub open spec fn wrap16(i: int) -> u16 {
    (i % 65536) as u16
}

proof fn lemma_shift_word(w: u16)
    by (bit_vector)
    ensures
        w >> 8 == w / 256,
        (w & 0xff00) >> 8 == w / 256,
        (w >> 8) & 0x00ff == w / 256,
        w & 0x00ff == w % 256,
{
}

proof fn lemma_shift_join(msb: u8, lsb: u8)
    by (bit_vector)
    ensures
        (msb as u16) << 8 == msb as u16 * 256,
        ((msb as u16) << 8) | (lsb as u16) == msb as u16 * 256 + lsb as u16,
{
}

/// The bytes of a 16-bit value, as shifts and masks compute them.
pub proof fn lemma_word_bits(w: u16)
    ensures
        w >> 8 == high(w),
        (w & 0xff00) >> 8 == high(w),
        (w >> 8) & 0x00ff == high(w),
        w & 0x00ff == low(w),
{
    reveal(high);
    reveal(low);
    lemma_shift_word(w);
}

/// The word of two bytes, as a shift and an addition or an `or` compute it.
pub proof fn lemma_join_bits(msb: u8, lsb: u8)
    ensures
        (msb as u16) << 8 <= 0xff00,
        ((msb as u16) << 8) + (lsb as u16) == word(msb, lsb),
        ((msb as u16) << 8) | (lsb as u16) == word(msb, lsb),
{
    reveal(word);
    lemma_shift_join(msb, lsb);
}

/// A 16-bit value is the word of its two bytes, and the bytes of a word are
/// the bytes it was made of.
pub proof fn lemma_word_bytes(w: u16, msb: u8, lsb: u8)
    ensures
        word(high(w), low(w)) == w,
        high(word(msb, lsb)) == msb,
        low(word(msb, lsb)) == lsb,
{
    reveal(word);
    reveal(high);
    reveal(low);
}

/// Reduction modulo 256 and modulo 65536 is what wrapping arithmetic on
/// bytes and on 16-bit values computes.
pub proof fn lemma_wrap(b: u8, w: u16, i: int)
    ensures
        wrap8(i) == i % 256,
        wrap16(i) == i % 65536,
        wrap8(b as int) == b,
        wrap16(w as int) == w,
        0 <= i < 256 ==> u8::wrapping_add(b, i as u8) == wrap8(b + i) && u8::wrapping_sub(
            b,
            i as u8,
        ) == wrap8(b - i),
        0 <= i < 65536 ==> u16::wrapping_add(w, i as u16) == wrap16(w + i) && u16::wrapping_sub(
            w,
            i as u16,
        ) == wrap16(w - i),
{
    reveal(wrap8);
    reveal(wrap16);
}

/// One of the four condition flags.
#[derive(Copy, Clone, Debug, PartialEq, Eq)]
pub enum Flag {
    /// Zero: bit 7 of `F`.
    Z,
    /// Subtract: bit 6 of `F`.
    N,
    /// Half carry: bit 5 of `F`.
    H,
    /// Carry: bit 4 of `F`.
    C,
}

impl Flag {
    /// The bit of `F` that holds the flag.
    pub open spec fn spec_mask(self) -> u8 {
        match self {
            Flag::Z => 0x80,
            Flag::N => 0x40,
            Flag::H => 0x20,
            Flag::C => 0x10,
        }
    }

    /// The bit of `F` that holds the flag.
    #[verifier::when_used_as_spec(spec_mask)]
    pub fn mask(self) -> (m: u8)
        ensures
            m == self.spec_mask(),
    {
        match self {
            Flag::Z => 0x80,
            Flag::N => 0x40,
            Flag::H => 0x20,
            Flag::C => 0x10,
        }
    }
}

/// Whether `flag` is set in the flag byte `f`.
pub open spec fn flag_in(f: u8, flag: Flag) -> bool {
    f & flag.spec_mask() != 0
}

/// The flag byte `f` with `flag` set or cleared and every other bit kept.
pub open spec fn flag_put(f: u8, flag: Flag, set: bool) -> u8 {
    if set {
        f | flag.spec_mask()
    } else {
        f & !flag.spec_mask()
    }
}

proof fn lemma_flag_masks(f: u8)
    by (bit_vector)
    ensures
        (f | 0x80) & 0x80 != 0,
        (f | 0x40) & 0x40 != 0,
        (f | 0x20) & 0x20 != 0,
        (f | 0x10) & 0x10 != 0,
        (f & !0x80u8) & 0x80 == 0,
        (f & !0x40u8) & 0x40 == 0,
        (f & !0x20u8) & 0x20 == 0,
        (f & !0x10u8) & 0x10 == 0,
        (f | 0x80) & 0x40 == f & 0x40 && (f | 0x80) & 0x20 == f & 0x20 && (f | 0x80) & 0x10 == f
            & 0x10,
        (f | 0x40) & 0x80 == f & 0x80 && (f | 0x40) & 0x20 == f & 0x20 && (f | 0x40) & 0x10 == f
            & 0x10,
        (f | 0x20) & 0x80 == f & 0x80 && (f | 0x20) & 0x40 == f & 0x40 && (f | 0x20) & 0x10 == f
            & 0x10,
        (f | 0x10) & 0x80 == f & 0x80 && (f | 0x10) & 0x40 == f & 0x40 && (f | 0x10) & 0x20 == f
            & 0x20,
        (f & !0x80u8) & 0x40 == f & 0x40 && (f & !0x80u8) & 0x20 == f & 0x20 && (f & !0x80u8)
            & 0x10 == f & 0x10,
        (f & !0x40u8) & 0x80 == f & 0x80 && (f & !0x40u8) & 0x20 == f & 0x20 && (f & !0x40u8)
            & 0x10 == f & 0x10,
        (f & !0x20u8) & 0x80 == f & 0x80 && (f & !0x20u8) & 0x40 == f & 0x40 && (f & !0x20u8)
            & 0x10 == f & 0x10,
        (f & !0x10u8) & 0x80 == f & 0x80 && (f & !0x10u8) & 0x40 == f & 0x40 && (f & !0x10u8)
            & 0x20 == f & 0x20,
        (f | 0x80) & 0x0f == f & 0x0f && (f | 0x40) & 0x0f == f & 0x0f && (f | 0x20) & 0x0f == f
            & 0x0f && (f | 0x10) & 0x0f == f & 0x0f,
        (f & !0x80u8) & 0x0f == f & 0x0f && (f & !0x40u8) & 0x0f == f & 0x0f && (f & !0x20u8)
            & 0x0f == f & 0x0f && (f & !0x10u8) & 0x0f == f & 0x0f,
{
}

/// Masking a byte with 0xf0 clears its lower nibble.
pub proof fn lemma_low_nibble_clear(b: u8)
    by (bit_vector)
    ensures
        (b & 0xf0) & 0x0f == 0,
        b & 0x0f == 0 ==> b & 0xf0 == b,
{
}

/// Writing one flag gives that flag the value written, keeps the other three
/// flags, and keeps the unused lower nibble.
pub proof fn lemma_flag_put(f: u8, flag: Flag, set: bool)
    ensures
        flag_in(flag_put(f, flag, set), flag) == set,
        forall|other: Flag| other != flag ==> flag_in(flag_put(f, flag, set), other) == flag_in(f, other),
        flag_put(f, flag, set) & 0x0f == f & 0x0f,
{
    lemma_flag_masks(f);
}

/// No write of a flag touches the unused lower nibble of the flag byte.
pub proof fn lemma_flags_keep_nibble()
    ensures
        forall|f: u8, flag: Flag, set: bool| (#[trigger] flag_put(f, flag, set)) & 0x0f == f & 0x0f,
{
    assert forall|f: u8, flag: Flag, set: bool| (#[trigger] flag_put(f, flag, set)) & 0x0f == f
        & 0x0f by {
        lemma_flag_put(f, flag, set);
    }
}

/// In a flag byte of zero no flag is set and the lower nibble is zero.
pub proof fn lemma_zeroed_flags()
    ensures
        Regs::zeroed().wf(),
        forall|flag: Flag| !flag_in(0, flag),
{
    assert(0u8 & 0x80 == 0 && 0u8 & 0x40 == 0 && 0u8 & 0x20 == 0 && 0u8 & 0x10 == 0 && 0u8 & 0x0f
        == 0) by (bit_vector);
}

/// The registers of the processor.
#[derive(Copy, Clone, Debug, PartialEq, Eq)]
pub struct Regs {
    pub a: u8,
    pub f: u8,
    pub b: u8,
    pub c: u8,
    pub d: u8,
    pub e: u8,
    pub h: u8,
    pub l: u8,
    pub pc: u16,
    pub sp: u16,
}

impl Default for Regs {
    /// The register file at power-on: every register is zero, so that no
    /// flag is set.
    fn default() -> (r: Regs)
        ensures
            r == Regs::zeroed(),
            r.wf(),
            forall|flag: Flag| !flag_in(r.f, flag),
    {
        proof {
            lemma_zeroed_flags();
        }
        Regs { a: 0, f: 0, b: 0, c: 0, d: 0, e: 0, h: 0, l: 0, pc: 0, sp: 0 }
    }
}

impl Regs {
    /// The register file in which every register is zero.
    pub open spec fn zeroed() -> Regs {
        Regs { a: 0, f: 0, b: 0, c: 0, d: 0, e: 0, h: 0, l: 0, pc: 0, sp: 0 }
    }

    /// The unused lower nibble of `F` reads as zero.
    pub open spec fn wf(&self) -> bool {
        self.f & 0x0f == 0
    }

    // Decrements the 16-bit value held in two 8-bit registers.
    fn _dec_r16(msb: u8, lsb: u8) -> (r: (u8, u8))
        ensures
            word(r.0, r.1) == wrap16(word(msb, lsb) - 1),
    {
        proof {
            reveal(word);
            reveal(wrap16);
        }
        let res_lsb = u8::wrapping_sub(lsb, 1);
        let res_msb = if res_lsb == 0xff {
            u8::wrapping_sub(msb, 1)
        } else {
            msb
        };
        (res_msb, res_lsb)
    }

    // Increments the 16-bit value held in two 8-bit registers.
    fn _inc_r16(msb: u8, lsb: u8) -> (r: (u8, u8))
        ensures
            word(r.0, r.1) == wrap16(word(msb, lsb) + 1),
    {
        proof {
            reveal(word);
            reveal(wrap16);
        }
        let res_lsb = u8::wrapping_add(lsb, 1);
        let res_msb = if res_lsb == 0x00 {
            u8::wrapping_add(msb, 1)
        } else {
            msb
        };
        (res_msb, res_lsb)
    }

    pub open spec fn spec_af(&self) -> u16 {
        word(self.a, self.f)
    }

    pub open spec fn spec_bc(&self) -> u16 {
        word(self.b, self.c)
    }

    pub open spec fn spec_de(&self) -> u16 {
        word(self.d, self.e)
    }

    pub open spec fn spec_hl(&self) -> u16 {
        word(self.h, self.l)
    }

    /// The pair AF: A is the high byte, F the low byte.
    #[verifier::when_used_as_spec(spec_af)]
    pub fn af(&self) -> (r: u16)
        ensures
            r == word(self.a, self.f),
    {
        proof {
            lemma_join_bits(self.a, self.f);
        }
        ((self.a as u16) << 8) + (self.f as u16)
    }

    /// The pair BC: B is the high byte, C the low byte.
    #[verifier::when_used_as_spec(spec_bc)]
    pub fn bc(&self) -> (r: u16)
        ensures
            r == word(self.b, self.c),
    {
        proof {
            lemma_join_bits(self.b, self.c);
        }
        ((self.b as u16) << 8) + (self.c as u16)
    }

    /// The pair DE: D is the high byte, E the low byte.
    #[verifier::when_used_as_spec(spec_de)]
    pub fn de(&self) -> (r: u16)
        ensures
            r == word(self.d, self.e),
    {
        proof {
            lemma_join_bits(self.d, self.e);
        }
        ((self.d as u16) << 8) + (self.e as u16)
    }

    /// The pair HL: H is the high byte, L the low byte.
    #[verifier::when_used_as_spec(spec_hl)]
    pub fn hl(&self) -> (r: u16)
        ensures
            r == word(self.h, self.l),
    {
        proof {
            lemma_join_bits(self.h, self.l);
        }
        ((self.h as u16) << 8) + (self.l as u16)
    }

    /// The register file with AF replaced by `raw`; the lower nibble of `F`
    /// is forced to zero.
    pub open spec fn with_af(self, raw: u16) -> Regs {
        Regs { a: high(raw), f: low(raw) & 0xf0, ..self }
    }

    /// The register file with BC replaced by `raw`.
    pub open spec fn with_bc(self, raw: u16) -> Regs {
        Regs { b: high(raw), c: low(raw), ..self }
    }

    /// The register file with DE replaced by `raw`.
    pub open spec fn with_de(self, raw: u16) -> Regs {
        Regs { d: high(raw), e: low(raw), ..self }
    }

    /// The register file with HL replaced by `raw`.
    pub open spec fn with_hl(self, raw: u16) -> Regs {
        Regs { h: high(raw), l: low(raw), ..self }
    }

    /// The register file with one flag set or cleared.
    pub open spec fn with_flag(self, flag: Flag, set: bool) -> Regs {
        Regs { f: flag_put(self.f, flag, set), ..self }
    }

    pub open spec fn spec_get_flag(&self, flag: Flag) -> bool {
        flag_in(self.f, flag)
    }

    /// Decrements BC, wrapping from 0x0000 to 0xffff. No flag changes.
    pub fn dec_bc(&mut self)
        ensures
            *final(self) == old(self).with_bc(wrap16(old(self).bc() - 1)),
    {
        let (msb, lsb) = Regs::_dec_r16(self.b, self.c);
        proof {
            lemma_word_bytes(0, msb, lsb);
        }
        self.b = msb;
        self.c = lsb;
    }

    /// Decrements DE, wrapping from 0x0000 to 0xffff. No flag changes.
    pub fn dec_de(&mut self)
        ensures
            *final(self) == old(self).with_de(wrap16(old(self).de() - 1)),
    {
        let (msb, lsb) = Regs::_dec_r16(self.d, self.e);
        proof {
            lemma_word_bytes(0, msb, lsb);
        }
        self.d = msb;
        self.e = lsb;
    }

    /// Decrements HL, wrapping from 0x0000 to 0xffff. No flag changes.
    pub fn dec_hl(&mut self)
        ensures
            *final(self) == old(self).with_hl(wrap16(old(self).hl() - 1)),
    {
        let (msb, lsb) = Regs::_dec_r16(self.h, self.l);
        proof {
            lemma_word_bytes(0, msb, lsb);
        }
        self.h = msb;
        self.l = lsb;
    }

    /// Increments HL, wrapping from 0xffff to 0x0000. No flag changes.
    pub fn inc_hl(&mut self)
        ensures
            *final(self) == old(self).with_hl(wrap16(old(self).hl() + 1)),
    {
        let (msb, lsb) = Regs::_inc_r16(self.h, self.l);
        proof {
            lemma_word_bytes(0, msb, lsb);
        }
        self.h = msb;
        self.l = lsb;
    }

    /// Writes the pair AF. The unused lower nibble of `F` stays zero.
    pub fn set_af(&mut self, raw: u16)
        ensures
            *final(self) == old(self).with_af(raw),
            final(self).wf(),
    {
        proof {
            lemma_word_bits(raw);
            lemma_low_nibble_clear((raw & 0x00ff) as u8);
        }
        self.a = ((raw & 0xff00) >> 8) as u8;
        self.f = ((raw & 0x00ff) as u8) & 0xf0;
    }

    /// Writes the pair BC.
    pub fn set_bc(&mut self, raw: u16)
        ensures
            *final(self) == old(self).with_bc(raw),
            final(self).bc() == raw,
    {
        proof {
            lemma_word_bits(raw);
            lemma_word_bytes(raw, 0, 0);
        }
        self.b = ((raw & 0xff00) >> 8) as u8;
        self.c = (raw & 0x00ff) as u8;
    }

    /// Writes the pair DE.
    pub fn set_de(&mut self, raw: u16)
        ensures
            *final(self) == old(self).with_de(raw),
            final(self).de() == raw,
    {
        proof {
            lemma_word_bits(raw);
            lemma_word_bytes(raw, 0, 0);
        }
        self.d = ((raw & 0xff00) >> 8) as u8;
        self.e = (raw & 0x00ff) as u8;
    }

    /// Writes the pair HL.
    pub fn set_hl(&mut self, raw: u16)
        ensures
            *final(self) == old(self).with_hl(raw),
            final(self).hl() == raw,
    {
        proof {
            lemma_word_bits(raw);
            lemma_word_bytes(raw, 0, 0);
        }
        self.h = ((raw & 0xff00) >> 8) as u8;
        self.l = (raw & 0x00ff) as u8;
    }

    /// Sets or clears one flag. The other flags, the lower nibble of `F` and
    /// every other register keep their values.
    pub fn set_flag(&mut self, flag: Flag, set: bool)
        ensures
            *final(self) == old(self).with_flag(flag, set),
            final(self).get_flag(flag) == set,
            forall|other: Flag| other != flag ==> final(self).get_flag(other) == old(self).get_flag(other),
            old(self).wf() ==> final(self).wf(),
    {
        proof {
            lemma_flag_put(self.f, flag, set);
        }
        if set {
            self.f |= flag.mask();
        } else {
            self.f &= !flag.mask();
        }
    }

    /// Whether a flag is set.
    #[verifier::when_used_as_spec(spec_get_flag)]
    pub fn get_flag(&self, flag: Flag) -> (r: bool)
        ensures
            r == self.spec_get_flag(flag),
    {
        (self.f & flag.mask()) != 0
    }
}

} // verus!
