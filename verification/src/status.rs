//! The processor status word P: seven named flags packed into one byte.
//!
//! A flag is named by a variant of [`Status`]; the register itself is a
//! [`StatusWord`], whose view is the byte it packs the flags into.

use vstd::prelude::*;

verus! {

/// The bits of a status byte that name a flag. Bit 5 names none.
pub const FLAG_BITS: u8 = 0xDF;

/// The two bits that are forced on in the copy of P that PHP pushes:
/// the break flag and the unnamed bit 5.
pub const PUSHED_BITS: u8 = 0x30;

/// One flag of the status word.
#[derive(Clone, Copy, Debug, PartialEq, Eq, Structural)]
pub enum Status {
    /// Negative: bit 7 of the last result.
    N,
    /// Signed overflow.
    V,
    /// Break.
    B,
    /// Decimal mode.
    D,
    /// Interrupt disable.
    I,
    /// Zero: the last result was zero.
    Z,
    /// Carry, or the absence of an unsigned borrow.
    C,
}

impl Status {
    /// The bit of the status byte that holds this flag.
    pub open spec fn bit(self) -> u8 {
        match self {
            Status::N => 0x80,
            Status::V => 0x40,
            Status::B => 0x10,
            Status::D => 0x08,
            Status::I => 0x04,
            Status::Z => 0x02,
            Status::C => 0x01,
        }
    }

    /// The bit of the status byte that holds this flag.
    pub fn mask(self) -> (m: u8)
        ensures
            m == self.bit(),
    {
        match self {
            Status::N => 0x80,
            Status::V => 0x40,
            Status::B => 0x10,
            Status::D => 0x08,
            Status::I => 0x04,
            Status::Z => 0x02,
            Status::C => 0x01,
        }
    }
}

/// Whether `flag` is on in the status byte `p`.
pub open spec fn flag_on(p: u8, flag: Status) -> bool {
    p & flag.bit() != 0
}

/// The status byte `p` with `flag` switched on or off and every other bit
/// as it was.
pub open spec fn with_flag(p: u8, flag: Status, on: bool) -> u8 {
    if on {
        p | flag.bit()
    } else {
        p & !flag.bit()
    }
}

/// The status byte `p` with Z and N set from the result byte `v`:
/// Z says that `v` is zero, N that bit 7 of `v` is set.
pub open spec fn with_zn(p: u8, v: u8) -> u8 {
    with_flag(with_flag(p, Status::Z, v == 0), Status::N, v >= 0x80)
}

proof fn lemma_flag_bits(p: u8, m: u8, k: u8)
    by (bit_vector)
    requires
        m == 0x80 || m == 0x40 || m == 0x10 || m == 0x08 || m == 0x04 || m == 0x02 || m == 0x01,
        k == 0x80 || k == 0x40 || k == 0x10 || k == 0x08 || k == 0x04 || k == 0x02 || k == 0x01,
    ensures
        ((p | m) & k != 0) == (m == k || (p & k != 0)),
        ((p & !m) & k != 0) == (m != k && (p & k != 0)),
        0u8 & k == 0,
{
}

/// Switching a flag reads back as the value it was switched to, and every
/// other flag reads as before.
pub proof fn lemma_with_flag(p: u8, flag: Status, on: bool, other: Status)
    ensures
        flag_on(with_flag(p, flag, on), other) == (if other == flag {
            on
        } else {
            flag_on(p, other)
        }),
{
    lemma_flag_bits(p, flag.bit(), other.bit());
}

/// After Z and N are set from `v`, Z is on exactly when `v` is zero, N is on
/// exactly when `v` is at least 0x80, and the other five flags are as before.
pub proof fn lemma_with_zn(p: u8, v: u8, other: Status)
    ensures
        flag_on(with_zn(p, v), Status::Z) == (v == 0),
        flag_on(with_zn(p, v), Status::N) == (v >= 0x80),
        other != Status::Z && other != Status::N ==> flag_on(with_zn(p, v), other) == flag_on(
            p,
            other,
        ),
{
    let q = with_flag(p, Status::Z, v == 0);
    lemma_with_flag(p, Status::Z, v == 0, Status::Z);
    lemma_with_flag(p, Status::Z, v == 0, other);
    lemma_with_flag(q, Status::N, v >= 0x80, Status::Z);
    lemma_with_flag(q, Status::N, v >= 0x80, Status::N);
    lemma_with_flag(q, Status::N, v >= 0x80, other);
}

/// No flag is on in the zero byte.
pub proof fn lemma_no_flag_in_zero(flag: Status)
    ensures
        !flag_on(0, flag),
{
    lemma_flag_bits(0, flag.bit(), flag.bit());
}

/// The status register: a set of flags, held as one byte. Bit 5 of the
/// byte, which names no flag, is never set.
#[derive(Clone, Copy, Debug, PartialEq, Eq, Structural)]
pub struct StatusWord {
    bits: u8,
}

impl View for StatusWord {
    type V = u8;

    closed spec fn view(&self) -> u8 {
        self.bits
    }
}

proof fn lemma_flags_stay_flags(p: u8, m: u8)
    by (bit_vector)
    requires
        p & 0x20 == 0,
        m == 0x80 || m == 0x40 || m == 0x10 || m == 0x08 || m == 0x04 || m == 0x02 || m == 0x01,
    ensures
        (p | m) & 0x20 == 0,
        (p & !m) & 0x20 == 0,
{
}

proof fn lemma_no_flags_is_zero(p: u8)
    by (bit_vector)
    requires
        p & 0x20 == 0,
    ensures
        (p == 0) == (p & 0x80 == 0 && p & 0x40 == 0 && p & 0x10 == 0 && p & 0x08 == 0 && p & 0x04
            == 0 && p & 0x02 == 0 && p & 0x01 == 0),
{
}

impl StatusWord {
    #[verifier::type_invariant]
    spec fn flags_only(self) -> bool {
        self.bits & 0x20 == 0
    }

    /// The status word with no flag on.
    pub fn empty() -> (r: StatusWord)
        ensures
            r@ == 0,
            forall|flag: Status| !flag_on(r@, flag),
    {
        assert forall|flag: Status| !flag_on(0, flag) by {
            lemma_no_flag_in_zero(flag);
        }
        assert(0u8 & 0x20 == 0) by (bit_vector);
        StatusWord { bits: 0 }
    }

    /// The status word that holds the flags of the byte `bits`; bit 5, which
    /// names no flag, is dropped.
    pub fn from_bits_truncate(bits: u8) -> (r: StatusWord)
        ensures
            r@ == bits & FLAG_BITS,
    {
        assert((bits & 0xDF) & 0x20 == 0) by (bit_vector);
        StatusWord { bits: bits & FLAG_BITS }
    }

    /// The byte that packs the flags. Its bit 5 is clear.
    pub fn bits(&self) -> (r: u8)
        ensures
            r == self@,
            r & 0x20 == 0,
    {
        proof {
            use_type_invariant(self);
        }
        self.bits
    }

    /// Whether no flag is on.
    pub fn is_empty(&self) -> (r: bool)
        ensures
            r == (self@ == 0),
            r == (forall|flag: Status| !flag_on(self@, flag)),
    {
        proof {
            use_type_invariant(self);
            lemma_no_flags_is_zero(self.bits);
            if self.bits != 0 {
                assert(flag_on(self.bits, Status::N) || flag_on(self.bits, Status::V) || flag_on(
                    self.bits,
                    Status::B,
                ) || flag_on(self.bits, Status::D) || flag_on(self.bits, Status::I) || flag_on(
                    self.bits,
                    Status::Z,
                ) || flag_on(self.bits, Status::C));
            } else {
                assert forall|flag: Status| !flag_on(self.bits, flag) by {
                    lemma_no_flag_in_zero(flag);
                }
            }
        }
        self.bits == 0
    }

    /// Whether `flag` is on.
    pub fn contains(&self, flag: Status) -> (r: bool)
        ensures
            r == flag_on(self@, flag),
    {
        (self.bits & flag.mask()) != 0
    }

    /// Switches `flag` on or off and leaves every other flag as it was.
    pub fn set(&mut self, flag: Status, on: bool)
        ensures
            final(self)@ == with_flag(old(self)@, flag, on),
    {
        proof {
            use_type_invariant(&*self);
            lemma_flags_stay_flags(self.bits, flag.bit());
        }
        if on {
            self.bits = self.bits | flag.mask();
        } else {
            self.bits = self.bits & !flag.mask();
        }
    }
}

} // verus!
