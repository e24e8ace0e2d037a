//! The mathematical model of the machine: registers, status byte and memory
//! as plain values, and the addressing modes, the stack and the operand fetch
//! as functions on them.

use crate::status::{flag_on, with_flag, with_zn, Status};
use vstd::prelude::*;

verus! {

/// Number of bytes in the memory image.
pub const MEM_SIZE: usize = 2048;

/// Where the program counter of a fresh machine points: the start of ROM.
pub const ROM_BASE: u16 = 0x0400;

/// The page that holds the stack.
pub const STACK_BASE: u16 = 0x0100;

/// The 16-bit word with low byte `lo` and high byte `hi`.
pub open spec fn word(lo: u8, hi: u8) -> u16 {
    (hi * 256 + lo) as u16
}

/// The low byte of `w`.
pub open spec fn low_byte(w: u16) -> u8 {
    (w % 256) as u8
}

/// The high byte of `w`.
pub open spec fn high_byte(w: u16) -> u8 {
    (w / 256) as u8
}

/// `v` reduced modulo 256.
pub open spec fn wrap8(v: int) -> u8 {
    (v % 256) as u8
}

/// `v` reduced modulo 65536.
pub open spec fn wrap16(v: int) -> u16 {
    (v % 65536) as u16
}

/// The value of the byte `b` read as an 8-bit two's-complement number.
pub open spec fn signed(b: u8) -> int {
    if b < 128 {
        b as int
    } else {
        b - 256
    }
}

/// The index into the memory image that the address `addr` selects.
pub open spec fn mem_index(addr: u16) -> int {
    addr as int % 2048
}

/// The address of the stack cell that the stack pointer `s` selects.
pub open spec fn stack_addr(s: u8) -> u16 {
    (STACK_BASE + s) as u16
}

/// A memory addressing mode: how an instruction's operand names a byte of
/// memory.
#[derive(Clone, Copy, Debug, PartialEq, Eq, Structural)]
pub enum Mode {
    /// One operand byte: an address in page zero.
    Zpg,
    /// One operand byte, to which X is added modulo 256.
    ZpgX,
    /// One operand byte, to which Y is added modulo 256.
    ZpgY,
    /// Two operand bytes: the address, low byte first.
    Abs,
    /// Two operand bytes, to which X is added modulo 65536.
    AbsX,
    /// Two operand bytes, to which Y is added modulo 65536.
    AbsY,
    /// One operand byte, to which X is added modulo 256 to give the place in
    /// page zero where the address stands.
    XInd,
    /// One operand byte: the place in page zero where an address stands, to
    /// which Y is added modulo 65536.
    IndY,
}

impl Mode {
    /// Whether the operand of this mode is two bytes long rather than one.
    pub open spec fn wide(self) -> bool {
        self == Mode::Abs || self == Mode::AbsX || self == Mode::AbsY
    }
}

/// The state of the machine.
pub struct Machine {
    /// Program counter.
    pub pc: u16,
    /// Accumulator.
    pub a: u8,
    /// Index register X.
    pub x: u8,
    /// Index register Y.
    pub y: u8,
    /// Stack pointer: the stack cell it selects is at 0x0100 + S.
    pub s: u8,
    /// Status byte.
    pub p: u8,
    /// Memory image.
    pub mem: Seq<u8>,
}

impl Machine {
    /// The memory image has its fixed size.
    pub open spec fn wf(self) -> bool {
        self.mem.len() == MEM_SIZE
    }

    /// The machine as it is before anything has run: registers and memory
    /// zeroed, no flag on, S at the top of the stack page and the program
    /// counter at the start of ROM.
    pub open spec fn initial() -> Machine {
        Machine {
            pc: ROM_BASE,
            a: 0,
            x: 0,
            y: 0,
            s: 0xff,
            p: 0,
            mem: Seq::new(MEM_SIZE as nat, |i: int| 0u8),
        }
    }

    // Memory

    /// The byte at `addr`. Addresses are taken modulo the size of the image.
    pub open spec fn peek(self, addr: u16) -> u8 {
        self.mem[mem_index(addr)]
    }

    /// The machine with `v` written at `addr`.
    pub open spec fn poke(self, addr: u16, v: u8) -> Machine {
        Machine { mem: self.mem.update(mem_index(addr), v), ..self }
    }

    /// The word whose low byte is at `addr` and whose high byte is at the
    /// next address, modulo 65536.
    pub open spec fn peek_word(self, addr: u16) -> u16 {
        word(self.peek(addr), self.peek(wrap16(addr + 1)))
    }

    /// The machine with the word `w` written at `addr`, low byte first.
    pub open spec fn poke_word(self, addr: u16, w: u16) -> Machine {
        self.poke(addr, low_byte(w)).poke(wrap16(addr + 1), high_byte(w))
    }

    /// The address that stands in page zero at `zp`: low byte at `zp`, high
    /// byte at `zp + 1` modulo 256.
    pub open spec fn pointer(self, zp: u8) -> u16 {
        word(self.mem[zp as int], self.mem[(zp + 1) % 256])
    }

    // Effective addresses

    /// Zero page,X: `(operand + X) mod 256`.
    pub open spec fn addr_zpgx(self, operand: u8) -> u16 {
        wrap8(operand + self.x) as u16
    }

    /// Zero page,Y: `(operand + Y) mod 256`.
    pub open spec fn addr_zpgy(self, operand: u8) -> u16 {
        wrap8(operand + self.y) as u16
    }

    /// Absolute,X: `(operand + X) mod 65536`.
    pub open spec fn addr_absx(self, operand: u16) -> u16 {
        wrap16(operand + self.x)
    }

    /// Absolute,Y: `(operand + Y) mod 65536`.
    pub open spec fn addr_absy(self, operand: u16) -> u16 {
        wrap16(operand + self.y)
    }

    /// Indexed indirect: the address that stands in page zero at
    /// `(operand + X) mod 256`.
    pub open spec fn addr_xind(self, operand: u8) -> u16 {
        self.pointer(wrap8(operand + self.x))
    }

    /// Indirect indexed: the address that stands in page zero at `operand`,
    /// plus Y, modulo 65536.
    pub open spec fn addr_indy(self, operand: u8) -> u16 {
        wrap16(self.pointer(operand) + self.y)
    }

    // Operand fetch

    /// The byte at the program counter.
    pub open spec fn next_byte(self) -> u8 {
        self.peek(self.pc)
    }

    /// The word at the program counter, low byte first.
    pub open spec fn next_word(self) -> u16 {
        self.peek_word(self.pc)
    }

    /// The machine with the program counter moved `n` bytes on, modulo 65536.
    pub open spec fn advance(self, n: int) -> Machine {
        Machine { pc: wrap16(self.pc + n), ..self }
    }

    /// The address that an instruction in `mode` works on, when its operand
    /// stands at the program counter.
    pub open spec fn target(self, mode: Mode) -> u16 {
        match mode {
            Mode::Zpg => self.next_byte() as u16,
            Mode::ZpgX => self.addr_zpgx(self.next_byte()),
            Mode::ZpgY => self.addr_zpgy(self.next_byte()),
            Mode::Abs => self.next_word(),
            Mode::AbsX => self.addr_absx(self.next_word()),
            Mode::AbsY => self.addr_absy(self.next_word()),
            Mode::XInd => self.addr_xind(self.next_byte()),
            Mode::IndY => self.addr_indy(self.next_byte()),
        }
    }

    /// The machine with the program counter moved past the operand of `mode`.
    pub open spec fn skip_operand(self, mode: Mode) -> Machine {
        self.advance(
            if mode.wide() {
                2
            } else {
                1
            },
        )
    }

    // Stack

    /// The machine after `b` is pushed: `b` is written at 0x0100 + S, then S
    /// goes down by one, modulo 256.
    pub open spec fn push(self, b: u8) -> Machine {
        Machine { s: wrap8(self.s - 1), ..self.poke(stack_addr(self.s), b) }
    }

    /// The byte that a pull reads: the one at 0x0100 + (S + 1) mod 256.
    pub open spec fn top(self) -> u8 {
        self.peek(stack_addr(wrap8(self.s + 1)))
    }

    /// The machine after a pull: S goes up by one, modulo 256.
    pub open spec fn drop_top(self) -> Machine {
        Machine { s: wrap8(self.s + 1), ..self }
    }

    /// The machine after the word `w` is pushed: high byte first, then low.
    pub open spec fn push_word(self, w: u16) -> Machine {
        self.push(high_byte(w)).push(low_byte(w))
    }

    /// The word that two pulls read: the low byte first, then the high byte.
    pub open spec fn top_word(self) -> u16 {
        word(self.top(), self.drop_top().top())
    }

    // Status

    /// Whether `flag` is on.
    pub open spec fn flag(self, flag: Status) -> bool {
        flag_on(self.p, flag)
    }

    /// The machine with `flag` switched on or off.
    pub open spec fn set_flag(self, flag: Status, on: bool) -> Machine {
        Machine { p: with_flag(self.p, flag, on), ..self }
    }

    /// The machine with Z and N set from the result byte `v`.
    pub open spec fn set_zn(self, v: u8) -> Machine {
        Machine { p: with_zn(self.p, v), ..self }
    }

    /// The carry flag as a number: 1 when it is on, else 0.
    pub open spec fn carry(self) -> int {
        if self.flag(Status::C) {
            1
        } else {
            0
        }
    }
}

} // verus!
