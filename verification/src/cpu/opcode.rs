//! The opcode table: for each byte of the primary and of the prefixed
//! instruction space, whether it encodes an instruction, the bit fields it
//! decomposes into, and what it costs in machine cycles.
//!
//! A byte is read as `xxyyyzzz`; `y` is split further into `p` (its upper
//! two bits) and `q` (its lowest bit). The table is a function of these
//! fields, not a stored array.

use vstd::prelude::*;

verus! {

/// Bits 6 and 7 of an instruction byte.
pub open spec fn field_x(byte: u8) -> u8 {
    byte / 64
}

/// Bits 3 to 5 of an instruction byte.
pub open spec fn field_y(byte: u8) -> u8 {
    (byte / 8) % 8
}

/// Bits 0 to 2 of an instruction byte.
pub open spec fn field_z(byte: u8) -> u8 {
    byte % 8
}

/// Bits 4 and 5 of an instruction byte: the upper two bits of `y`.
pub open spec fn field_p(byte: u8) -> u8 {
    (byte / 16) % 4
}

/// Bit 3 of an instruction byte: the lowest bit of `y`.
pub open spec fn field_q(byte: u8) -> u8 {
    (byte / 8) % 2
}

/// The fields are views of one byte: together `x`, `y` and `z` make up the
/// byte, and `p` and `q` make up `y`.
pub proof fn lemma_fields(byte: u8)
    ensures
        field_x(byte) < 4,
        field_y(byte) < 8,
        field_z(byte) < 8,
        field_p(byte) < 4,
        field_q(byte) < 2,
        byte == field_x(byte) * 64 + field_y(byte) * 8 + field_z(byte),
        field_y(byte) == field_p(byte) * 2 + field_q(byte),
        field_p(byte) == field_y(byte) / 2,
        field_q(byte) == field_y(byte) % 2,
{
}

proof fn lemma_field_bits(byte: u8)
    by (bit_vector)
    ensures
        (byte >> 6) & 0x03 == byte / 64,
        (byte >> 3) & 0x07 == (byte / 8) % 8,
        byte & 0x07 == byte % 8,
        (byte >> 4) & 0x03 == (byte / 16) % 4,
        (byte >> 3) & 0x01 == (byte / 8) % 2,
{
}

/// The cost of the instruction that `byte` encodes in the primary space, in
/// machine cycles, or `None` where the byte encodes none. The first number
/// is the base cost; the second is the cost of a conditional jump, call or
/// return whose condition fails, and equals the first for every other
/// instruction.
pub open spec fn primary_cost(byte: u8) -> Option<(usize, usize)> {
    let x = field_x(byte);
    let y = field_y(byte);
    let z = field_z(byte);
    let p = field_p(byte);
    let q = field_q(byte);
    if x == 0 {
        if z == 0 {
            if y == 0 {
                Some((1, 1))  // NOP
            } else if y == 1 {
                Some((5, 5))  // LD (nn),SP
            } else if y == 2 {
                Some((1, 1))  // STOP
            } else if y == 3 {
                Some((3, 3))  // JR d
            } else {
                Some((3, 2))  // JR cc,d
            }
        } else if z == 1 {
            if q == 0 {
                Some((3, 3))  // LD rp,nn
            } else {
                Some((2, 2))  // ADD HL,rp
            }
        } else if z == 2 || z == 3 {
            Some((2, 2))  // LD through a pair; INC rp, DEC rp
        } else if z == 4 || z == 5 {
            if y == 6 {
                Some((3, 3))  // INC (HL), DEC (HL)
            } else {
                Some((1, 1))  // INC r, DEC r
            }
        } else if z == 6 {
            if y == 6 {
                Some((3, 3))  // LD (HL),n
            } else {
                Some((2, 2))  // LD r,n
            }
        } else {
            Some((1, 1))  // rotates of A, DAA, CPL, SCF, CCF
        }
    } else if x == 1 {
        if y == 6 && z == 6 {
            Some((1, 1))  // HALT
        } else if y == 6 || z == 6 {
            Some((2, 2))  // LD (HL),r and LD r,(HL)
        } else {
            Some((1, 1))  // LD r,r
        }
    } else if x == 2 {
        if z == 6 {
            Some((2, 2))  // ALU A,(HL)
        } else {
            Some((1, 1))  // ALU A,r
        }
    } else {
        if z == 0 {
            if y < 4 {
                Some((5, 2))  // RET cc
            } else if y == 5 {
                Some((4, 4))  // ADD SP,d
            } else {
                Some((3, 3))  // LDH (n),A; LDH A,(n); LD HL,SP+d
            }
        } else if z == 1 {
            if q == 0 {
                Some((3, 3))  // POP
            } else if p == 0 || p == 1 {
                Some((4, 4))  // RET, RETI
            } else if p == 2 {
                Some((1, 1))  // JP HL
            } else {
                Some((2, 2))  // LD SP,HL
            }
        } else if z == 2 {
            if y < 4 {
                Some((4, 3))  // JP cc,nn
            } else if y == 4 || y == 6 {
                Some((2, 2))  // LD (C),A; LD A,(C)
            } else {
                Some((4, 4))  // LD (nn),A; LD A,(nn)
            }
        } else if z == 3 {
            if y == 0 {
                Some((4, 4))  // JP nn
            } else if y == 1 || y == 6 || y == 7 {
                Some((1, 1))  // prefix; DI; EI
            } else {
                None
            }
        } else if z == 4 {
            if y < 4 {
                Some((6, 3))  // CALL cc,nn
            } else {
                None
            }
        } else if z == 5 {
            if q == 0 {
                Some((4, 4))  // PUSH
            } else if p == 0 {
                Some((6, 6))  // CALL nn
            } else {
                None
            }
        } else if z == 6 {
            Some((2, 2))  // ALU A,n
        } else {
            Some((4, 4))  // RST
        }
    }
}

/// The cost of the instruction that `byte` encodes in the prefixed space,
/// in machine cycles. Every byte encodes an instruction there. The cycle of
/// the prefix itself is not part of it: the prefix is charged when it runs.
pub open spec fn prefixed_cost(byte: u8) -> Option<(usize, usize)> {
    let x = field_x(byte);
    let z = field_z(byte);
    if z != 6 {
        Some((1, 1))  // on a register
    } else if x == 1 {
        Some((2, 2))  // BIT n,(HL)
    } else {
        Some((3, 3))  // rotate, shift, RES or SET on (HL)
    }
}

/// The cost pair of `byte` in the space that `is_cb` selects (`true`: the
/// prefixed space), or `None` where the byte is unmapped there.
pub open spec fn cost_of(is_cb: bool, byte: u8) -> Option<(usize, usize)> {
    if is_cb {
        prefixed_cost(byte)
    } else {
        primary_cost(byte)
    }
}

/// `byte` is a conditional jump, call or return of the primary space.
pub open spec fn is_conditional(byte: u8) -> bool {
    ||| field_x(byte) == 0 && field_z(byte) == 0 && field_y(byte) >= 4
    ||| field_x(byte) == 3 && field_y(byte) < 4 && (field_z(byte) == 0 || field_z(byte) == 2
        || field_z(byte) == 4)
}

/// Eleven bytes of the primary space are unmapped; every other byte of
/// either space has exactly one entry.
pub proof fn lemma_unmapped(is_cb: bool, byte: u8)
    ensures
        cost_of(is_cb, byte) is None <==> !is_cb && (byte == 0xd3 || byte == 0xdb || byte == 0xdd
            || byte == 0xe3 || byte == 0xe4 || byte == 0xeb || byte == 0xec || byte == 0xed
            || byte == 0xf4 || byte == 0xfc || byte == 0xfd),
{
}

/// The alternate cost is lower than the base cost for the conditional
/// jumps, calls and returns, and equals it for every other instruction. No
/// instruction is free.
pub proof fn lemma_alt_cost(is_cb: bool, byte: u8)
    requires
        cost_of(is_cb, byte) is Some,
    ensures
        ({
            let (base, alt) = cost_of(is_cb, byte).unwrap();
            &&& 1 <= alt <= base <= 6
            &&& alt < base <==> !is_cb && is_conditional(byte)
        }),
{
}

/// An entry of the opcode table: a byte that encodes an instruction, and
/// the space it was looked up in.
#[derive(Copy, Clone, Debug, PartialEq, Eq)]
pub struct Opcode {
    pub(crate) raw: u8,
    pub(crate) is_cb: bool,
}

impl Opcode {
    /// Only bytes that the table maps are held as entries.
    #[verifier::type_invariant]
    pub open(crate) spec fn inv(self) -> bool {
        cost_of(self.is_cb, self.raw) is Some
    }

    pub open(crate) spec fn spec_raw(&self) -> u8 {
        self.raw
    }

    pub open(crate) spec fn spec_is_cb(&self) -> bool {
        self.is_cb
    }

    pub open(crate) spec fn spec_x(&self) -> u8 {
        field_x(self.raw)
    }

    pub open(crate) spec fn spec_y(&self) -> u8 {
        field_y(self.raw)
    }

    pub open(crate) spec fn spec_z(&self) -> u8 {
        field_z(self.raw)
    }

    pub open(crate) spec fn spec_p(&self) -> u8 {
        field_p(self.raw)
    }

    pub open(crate) spec fn spec_q(&self) -> u8 {
        field_q(self.raw)
    }

    /// The cost pair of the entry; (0, 0) stands for "no entry".
    pub open(crate) spec fn spec_ncycles(&self) -> (usize, usize) {
        match cost_of(self.is_cb, self.raw) {
            Some(cost) => cost,
            None => (0, 0),
        }
    }

    /// The table's answer for `byte` in the space that `is_cb` selects.
    pub open(crate) spec fn spec_from(is_cb: bool, byte: u8) -> Option<Opcode> {
        if cost_of(is_cb, byte) is Some {
            Some(Opcode { raw: byte, is_cb })
        } else {
            None
        }
    }

    // Computes the cost pair of a byte of the primary space.
    fn primary(byte: u8) -> (r: Option<(usize, usize)>)
        ensures
            r == primary_cost(byte),
    {
        proof {
            lemma_field_bits(byte);
        }
        let x = (byte >> 6) & 0x03;
        let y = (byte >> 3) & 0x07;
        let z = byte & 0x07;
        let p = (byte >> 4) & 0x03;
        let q = (byte >> 3) & 0x01;
        match (x, z) {
            (0, 0) => match y {
                0 | 2 => Some((1, 1)),
                1 => Some((5, 5)),
                3 => Some((3, 3)),
                _ => Some((3, 2)),
            },
            (0, 1) => if q == 0 {
                Some((3, 3))
            } else {
                Some((2, 2))
            },
            (0, 2) | (0, 3) => Some((2, 2)),
            (0, 4) | (0, 5) => if y == 6 {
                Some((3, 3))
            } else {
                Some((1, 1))
            },
            (0, 6) => if y == 6 {
                Some((3, 3))
            } else {
                Some((2, 2))
            },
            (0, _) => Some((1, 1)),
            (1, _) => if y == 6 && z == 6 {
                Some((1, 1))
            } else if y == 6 || z == 6 {
                Some((2, 2))
            } else {
                Some((1, 1))
            },
            (2, _) => if z == 6 {
                Some((2, 2))
            } else {
                Some((1, 1))
            },
            (_, 0) => if y < 4 {
                Some((5, 2))
            } else if y == 5 {
                Some((4, 4))
            } else {
                Some((3, 3))
            },
            (_, 1) => match (q, p) {
                (0, _) => Some((3, 3)),
                (_, 0) | (_, 1) => Some((4, 4)),
                (_, 2) => Some((1, 1)),
                _ => Some((2, 2)),
            },
            (_, 2) => if y < 4 {
                Some((4, 3))
            } else if y == 4 || y == 6 {
                Some((2, 2))
            } else {
                Some((4, 4))
            },
            (_, 3) => match y {
                0 => Some((4, 4)),
                1 | 6 | 7 => Some((1, 1)),
                _ => None,
            },
            (_, 4) => if y < 4 {
                Some((6, 3))
            } else {
                None
            },
            (_, 5) => if q == 0 {
                Some((4, 4))
            } else if p == 0 {
                Some((6, 6))
            } else {
                None
            },
            (_, 6) => Some((2, 2)),
            _ => Some((4, 4)),
        }
    }

    // Computes the cost pair of a byte of the prefixed space.
    fn prefixed(byte: u8) -> (r: Option<(usize, usize)>)
        ensures
            r == prefixed_cost(byte),
    {
        proof {
            lemma_field_bits(byte);
        }
        let x = (byte >> 6) & 0x03;
        let z = byte & 0x07;
        if z != 6 {
            Some((1, 1))
        } else if x == 1 {
            Some((2, 2))
        } else {
            Some((3, 3))
        }
    }

    /// Looks `byte` up in the space that `is_cb` selects: the primary space
    /// for `false`, the prefixed space for `true`. Returns the entry, or
    /// `None` where the byte encodes no instruction in that space.
    pub fn from(is_cb: bool, byte: u8) -> (r: Option<Opcode>)
        ensures
            r == Opcode::spec_from(is_cb, byte),
            r is Some <==> cost_of(is_cb, byte) is Some,
            r matches Some(op) ==> op.raw() == byte && op.is_cb() == is_cb,
    {
        let cost = if is_cb {
            Opcode::prefixed(byte)
        } else {
            Opcode::primary(byte)
        };
        match cost {
            Some(_) => Some(Opcode { raw: byte, is_cb }),
            None => None,
        }
    }

    /// The byte of the entry.
    #[verifier::when_used_as_spec(spec_raw)]
    pub fn raw(&self) -> (r: u8)
        ensures
            r == self.spec_raw(),
    {
        self.raw
    }

    /// Whether the entry belongs to the prefixed space.
    #[verifier::when_used_as_spec(spec_is_cb)]
    pub fn is_cb(&self) -> (r: bool)
        ensures
            r == self.spec_is_cb(),
    {
        self.is_cb
    }

    /// Bits 6 and 7 of the byte.
    #[verifier::when_used_as_spec(spec_x)]
    pub fn x(&self) -> (r: u8)
        ensures
            r == field_x(self.raw()),
            r < 4,
    {
        proof {
            lemma_field_bits(self.raw);
        }
        (self.raw >> 6) & 0x03
    }

    /// Bits 3 to 5 of the byte.
    #[verifier::when_used_as_spec(spec_y)]
    pub fn y(&self) -> (r: u8)
        ensures
            r == field_y(self.raw()),
            r < 8,
    {
        proof {
            lemma_field_bits(self.raw);
        }
        (self.raw >> 3) & 0x07
    }

    /// Bits 0 to 2 of the byte.
    #[verifier::when_used_as_spec(spec_z)]
    pub fn z(&self) -> (r: u8)
        ensures
            r == field_z(self.raw()),
            r < 8,
    {
        proof {
            lemma_field_bits(self.raw);
        }
        self.raw & 0x07
    }

    /// Bits 4 and 5 of the byte: `y >> 1`.
    #[verifier::when_used_as_spec(spec_p)]
    pub fn p(&self) -> (r: u8)
        ensures
            r == field_p(self.raw()),
            r < 4,
    {
        proof {
            lemma_field_bits(self.raw);
        }
        (self.raw >> 4) & 0x03
    }

    /// Bit 3 of the byte: `y & 1`.
    #[verifier::when_used_as_spec(spec_q)]
    pub fn q(&self) -> (r: u8)
        ensures
            r == field_q(self.raw()),
            r < 2,
    {
        proof {
            lemma_field_bits(self.raw);
        }
        (self.raw >> 3) & 0x01
    }

    /// The cost of the instruction in machine cycles: the base cost, and
    /// the cost that applies when a conditional jump, call or return is not
    /// taken. For every other instruction the two are equal.
    #[verifier::when_used_as_spec(spec_ncycles)]
    pub fn ncycles(&self) -> (r: (usize, usize))
        ensures
            Some(r) == cost_of(self.is_cb(), self.raw()),
            r == self.spec_ncycles(),
            1 <= r.1 <= r.0 <= 6,
    {
        proof {
            use_type_invariant(self);
            lemma_alt_cost(self.is_cb, self.raw);
        }
        let cost = if self.is_cb {
            Opcode::prefixed(self.raw)
        } else {
            Opcode::primary(self.raw)
        };
        cost.unwrap()
    }
}

} // verus!
