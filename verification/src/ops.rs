//! The operation kernels in the model: what each mnemonic does to the
//! registers and the status byte, given the byte it works on.

use crate::machine::{wrap8, Machine};
use crate::status::{lemma_with_flag, lemma_with_zn, with_flag, Status};
use vstd::prelude::*;

verus! {

/// An operation that consumes a byte and changes registers and flags.
#[derive(Clone, Copy, Debug, PartialEq, Eq, Structural)]
pub enum RegOp {
    /// Add to A with carry.
    Adc,
    /// Bitwise AND into A.
    And,
    /// Test bits of the operand against A.
    Bit,
    /// Compare with A.
    Cmp,
    /// Compare with X.
    Cpx,
    /// Compare with Y.
    Cpy,
    /// Bitwise exclusive OR into A.
    Eor,
    /// Load A.
    Lda,
    /// Load X.
    Ldx,
    /// Load Y.
    Ldy,
    /// Bitwise OR into A.
    Ora,
    /// Subtract from A with borrow.
    Sbc,
}

/// An operation that turns a byte into another byte and changes flags.
#[derive(Clone, Copy, Debug, PartialEq, Eq, Structural)]
pub enum MemOp {
    /// Shift left by one bit.
    Asl,
    /// Subtract one.
    Dec,
    /// Add one.
    Inc,
    /// Shift right by one bit.
    Lsr,
    /// Rotate left by one bit through carry.
    Rol,
    /// Rotate right by one bit through carry.
    Ror,
}

/// An operation that yields the byte of a register, to be stored.
#[derive(Clone, Copy, Debug, PartialEq, Eq, Structural)]
pub enum SetOp {
    /// Store A.
    Sta,
    /// Store X.
    Stx,
    /// Store Y.
    Sty,
}

impl RegOp {
    /// Whether the operation adds or subtracts, and so depends on the
    /// decimal flag.
    pub open spec fn arithmetic(self) -> bool {
        self == RegOp::Adc || self == RegOp::Sbc
    }
}

impl Machine {
    // Register kernels

    /// ADC in binary mode. With `t = A + m + C`: the carry flag says that
    /// `t > 255`, A becomes `t mod 256`, V says that the operands agree in
    /// sign and the result does not, and Z and N follow the new A.
    pub open spec fn adc(self, m: u8) -> Machine {
        let t = self.a + m + self.carry();
        let r = wrap8(t);
        let v = (self.a ^ r) & (m ^ r) & 0x80 != 0;
        Machine { a: r, ..self }.set_flag(Status::C, t > 255).set_flag(Status::V, v).set_zn(r)
    }

    /// SBC in binary mode: ADC of the operand with every bit inverted.
    pub open spec fn sbc(self, m: u8) -> Machine {
        self.adc(!m)
    }

    /// AND: `A := A & m`; Z and N follow A.
    pub open spec fn and(self, m: u8) -> Machine {
        Machine { a: self.a & m, ..self }.set_zn(self.a & m)
    }

    /// ORA: `A := A | m`; Z and N follow A.
    pub open spec fn ora(self, m: u8) -> Machine {
        Machine { a: self.a | m, ..self }.set_zn(self.a | m)
    }

    /// EOR: `A := A ^ m`; Z and N follow A.
    pub open spec fn eor(self, m: u8) -> Machine {
        Machine { a: self.a ^ m, ..self }.set_zn(self.a ^ m)
    }

    /// BIT: Z says that `A & m` is zero, N is bit 7 of `m`, V is bit 6 of `m`.
    pub open spec fn bit(self, m: u8) -> Machine {
        self.set_flag(Status::Z, self.a & m == 0).set_flag(Status::N, m & 0x80 != 0).set_flag(
            Status::V,
            m & 0x40 != 0,
        )
    }

    /// The comparison of the register value `r` with `m`: the carry flag says
    /// that `r >= m`, unsigned; Z and N follow `(r - m) mod 256`.
    pub open spec fn compare(self, r: u8, m: u8) -> Machine {
        self.set_flag(Status::C, r >= m).set_zn(wrap8(r - m))
    }

    /// LDA: `A := m`; Z and N follow A.
    pub open spec fn lda(self, m: u8) -> Machine {
        Machine { a: m, ..self }.set_zn(m)
    }

    /// LDX: `X := m`; Z and N follow X.
    pub open spec fn ldx(self, m: u8) -> Machine {
        Machine { x: m, ..self }.set_zn(m)
    }

    /// LDY: `Y := m`; Z and N follow Y.
    pub open spec fn ldy(self, m: u8) -> Machine {
        Machine { y: m, ..self }.set_zn(m)
    }

    /// Whether `op` can work on this machine: ADC and SBC are defined in
    /// binary mode only.
    pub open spec fn accepts(self, op: RegOp) -> bool {
        op.arithmetic() ==> !self.flag(Status::D)
    }

    /// The machine after the register kernel `op` has consumed `m`.
    pub open spec fn reg_op(self, op: RegOp, m: u8) -> Machine {
        match op {
            RegOp::Adc => self.adc(m),
            RegOp::And => self.and(m),
            RegOp::Bit => self.bit(m),
            RegOp::Cmp => self.compare(self.a, m),
            RegOp::Cpx => self.compare(self.x, m),
            RegOp::Cpy => self.compare(self.y, m),
            RegOp::Eor => self.eor(m),
            RegOp::Lda => self.lda(m),
            RegOp::Ldx => self.ldx(m),
            RegOp::Ldy => self.ldy(m),
            RegOp::Ora => self.ora(m),
            RegOp::Sbc => self.sbc(m),
        }
    }

    // Memory kernels

    /// The byte that the memory kernel `op` makes of `m`.
    pub open spec fn mem_result(self, op: MemOp, m: u8) -> u8 {
        match op {
            MemOp::Asl => wrap8(2 * m),
            MemOp::Dec => wrap8(m - 1),
            MemOp::Inc => wrap8(m + 1),
            MemOp::Lsr => (m / 2) as u8,
            MemOp::Rol => wrap8(2 * m + self.carry()),
            MemOp::Ror => (m / 2 + 128 * self.carry()) as u8,
        }
    }

    /// The machine after the memory kernel `op` has worked on `m`. The shifts
    /// and rotates put the bit that leaves the byte into the carry flag:
    /// bit 7 when going left, bit 0 when going right. Z and N follow the
    /// result. No register changes.
    pub open spec fn mem_op(self, op: MemOp, m: u8) -> Machine {
        let r = self.mem_result(op, m);
        match op {
            MemOp::Asl | MemOp::Rol => self.set_flag(Status::C, m >= 0x80).set_zn(r),
            MemOp::Lsr | MemOp::Ror => self.set_flag(Status::C, m % 2 == 1).set_zn(r),
            MemOp::Dec | MemOp::Inc => self.set_zn(r),
        }
    }

    // Store kernels

    /// The byte that the store kernel `op` yields.
    pub open spec fn set_op(self, op: SetOp) -> u8 {
        match op {
            SetOp::Sta => self.a,
            SetOp::Stx => self.x,
            SetOp::Sty => self.y,
        }
    }
}

/// What a comparison leaves in the flags: the carry flag says that `r >= m`,
/// Z that `r == m`, N is bit 7 of `(r - m) mod 256`, and no other flag
/// changes.
pub proof fn lemma_compare(s: Machine, r: u8, m: u8)
    ensures
        s.compare(r, m).flag(Status::C) == (r >= m),
        s.compare(r, m).flag(Status::Z) == (r == m),
        s.compare(r, m).flag(Status::N) == (wrap8(r - m) >= 0x80),
        forall|f: Status|
            f != Status::C && f != Status::Z && f != Status::N ==> #[trigger] s.compare(r, m).flag(
                f,
            ) == s.flag(f),
{
    let q = with_flag(s.p, Status::C, r >= m);
    let t = wrap8(r - m);
    lemma_with_flag(s.p, Status::C, r >= m, Status::C);
    lemma_with_zn(q, t, Status::C);
    assert forall|f: Status| f != Status::C && f != Status::Z && f != Status::N implies #[trigger] s.compare(
        r,
        m,
    ).flag(f) == s.flag(f) by {
        lemma_with_flag(s.p, Status::C, r >= m, f);
        lemma_with_zn(q, t, f);
    }
}

} // verus!
