//! The executable processor: registers, status word and memory image, with
//! each operation proved to do what the model says.

use crate::machine::{word, wrap8, Machine, Mode, MEM_SIZE, ROM_BASE, STACK_BASE};
use crate::ops::{lemma_compare, MemOp, RegOp, SetOp};
use crate::status::{lemma_with_zn, Status, StatusWord};
use vstd::prelude::*;

verus! {

/// A 6502 processor with its memory.
pub struct CPU {
    /// Program counter.
    pub pc: u16,
    /// Accumulator.
    pub a: u8,
    /// Index register X.
    pub x: u8,
    /// Index register Y.
    pub y: u8,
    /// Stack pointer.
    pub s: u8,
    /// Status word.
    pub p: StatusWord,
    /// Memory image.
    pub mem: [u8; 2048],
}

impl View for CPU {
    type V = Machine;

    open spec fn view(&self) -> Machine {
        Machine {
            pc: self.pc,
            a: self.a,
            x: self.x,
            y: self.y,
            s: self.s,
            p: self.p@,
            mem: self.mem@,
        }
    }
}

impl CPU {
    /// A fresh processor: registers and memory zeroed, no flag on, the stack
    /// pointer at the top of the stack page and the program counter at the
    /// start of ROM.
    pub fn new() -> (cpu: CPU)
        ensures
            cpu@ == Machine::initial(),
    {
        let cpu = CPU {
            a: 0,
            x: 0,
            y: 0,
            pc: ROM_BASE,
            s: 0xff,
            p: StatusWord::empty(),
            mem: [0; 2048],
        };
        assert(cpu.mem@ =~= Machine::initial().mem);
        cpu
    }

    // Memory

    /// Reads the byte at `address`.
    pub fn get_byte(&mut self, address: u16) -> (b: u8)
        ensures
            *final(self) == *old(self),
            b == old(self)@.peek(address),
    {
        self.mem[address as usize % MEM_SIZE]
    }

    /// Writes `v` at `address`.
    pub fn set_byte(&mut self, address: u16, v: u8)
        ensures
            final(self)@ == old(self)@.poke(address, v),
    {
        self.mem[address as usize % MEM_SIZE] = v;
    }

    /// Reads the byte that zero-page addressing selects.
    pub fn get_byte_zpg(&mut self, address: u8) -> (b: u8)
        ensures
            *final(self) == *old(self),
            b == old(self)@.mem[address as int],
    {
        self.get_byte(address as u16)
    }

    /// Reads the byte that zero page,X addressing selects: the index wraps
    /// within page zero.
    pub fn get_byte_zpgx(&mut self, address: u8) -> (b: u8)
        ensures
            *final(self) == *old(self),
            b == old(self)@.mem[(address + old(self)@.x) % 256],
            b == old(self)@.peek(old(self)@.addr_zpgx(address)),
    {
        self.get_byte(address.wrapping_add(self.x) as u16)
    }

    /// Reads the byte that zero page,Y addressing selects: the index wraps
    /// within page zero.
    pub fn get_byte_zpgy(&mut self, address: u8) -> (b: u8)
        ensures
            *final(self) == *old(self),
            b == old(self)@.mem[(address + old(self)@.y) % 256],
            b == old(self)@.peek(old(self)@.addr_zpgy(address)),
    {
        self.get_byte(address.wrapping_add(self.y) as u16)
    }

    /// Reads the byte that absolute addressing selects.
    pub fn get_byte_abs(&mut self, address: u16) -> (b: u8)
        ensures
            *final(self) == *old(self),
            b == old(self)@.peek(address),
    {
        self.get_byte(address)
    }

    /// Reads the byte that absolute,X addressing selects.
    pub fn get_byte_absx(&mut self, address: u16) -> (b: u8)
        ensures
            *final(self) == *old(self),
            b == old(self)@.peek(old(self)@.addr_absx(address)),
    {
        self.get_byte(address.wrapping_add(self.x as u16))
    }

    /// Reads the byte that absolute,Y addressing selects.
    pub fn get_byte_absy(&mut self, address: u16) -> (b: u8)
        ensures
            *final(self) == *old(self),
            b == old(self)@.peek(old(self)@.addr_absy(address)),
    {
        self.get_byte(address.wrapping_add(self.y as u16))
    }

    /// Reads the byte that indexed indirect addressing selects: the one at
    /// the address that stands in page zero at `(address + X) mod 256`.
    pub fn get_byte_xind(&mut self, address: u8) -> (b: u8)
        ensures
            *final(self) == *old(self),
            b == old(self)@.peek(old(self)@.addr_xind(address)),
    {
        let zp = address.wrapping_add(self.x);
        let lo = self.get_byte_zpg(zp);
        let hi = self.get_byte_zpg(zp.wrapping_add(1));
        self.get_byte(make_word(lo, hi))
    }

    /// Reads the byte that indirect indexed addressing selects: the one at
    /// the address that stands in page zero at `address`, plus Y.
    pub fn get_byte_indy(&mut self, address: u8) -> (b: u8)
        ensures
            *final(self) == *old(self),
            b == old(self)@.peek(old(self)@.addr_indy(address)),
    {
        let lo = self.get_byte_zpg(address);
        let hi = self.get_byte_zpg(address.wrapping_add(1));
        self.get_byte(make_word(lo, hi).wrapping_add(self.y as u16))
    }

    /// Writes `v` where zero-page addressing points.
    pub fn set_byte_zpg(&mut self, address: u8, v: u8)
        ensures
            final(self)@ == old(self)@.poke(address as u16, v),
    {
        self.set_byte(address as u16, v);
    }

    /// Writes `v` where zero page,X addressing points.
    pub fn set_byte_zpgx(&mut self, address: u8, v: u8)
        ensures
            final(self)@ == old(self)@.poke(old(self)@.addr_zpgx(address), v),
    {
        self.set_byte(address.wrapping_add(self.x) as u16, v);
    }

    /// Writes `v` where zero page,Y addressing points.
    pub fn set_byte_zpgy(&mut self, address: u8, v: u8)
        ensures
            final(self)@ == old(self)@.poke(old(self)@.addr_zpgy(address), v),
    {
        self.set_byte(address.wrapping_add(self.y) as u16, v);
    }

    /// Writes `v` where absolute addressing points.
    pub fn set_byte_abs(&mut self, address: u16, v: u8)
        ensures
            final(self)@ == old(self)@.poke(address, v),
    {
        self.set_byte(address, v);
    }

    /// Writes `v` where absolute,X addressing points.
    pub fn set_byte_absx(&mut self, address: u16, v: u8)
        ensures
            final(self)@ == old(self)@.poke(old(self)@.addr_absx(address), v),
    {
        self.set_byte(address.wrapping_add(self.x as u16), v);
    }

    /// Writes `v` where absolute,Y addressing points.
    pub fn set_byte_absy(&mut self, address: u16, v: u8)
        ensures
            final(self)@ == old(self)@.poke(old(self)@.addr_absy(address), v),
    {
        self.set_byte(address.wrapping_add(self.y as u16), v);
    }

    /// Writes `v` where indexed indirect addressing points.
    pub fn set_byte_xind(&mut self, address: u8, v: u8)
        ensures
            final(self)@ == old(self)@.poke(old(self)@.addr_xind(address), v),
    {
        let zp = address.wrapping_add(self.x);
        let lo = self.get_byte_zpg(zp);
        let hi = self.get_byte_zpg(zp.wrapping_add(1));
        self.set_byte(make_word(lo, hi), v);
    }

    /// Writes `v` where indirect indexed addressing points.
    pub fn set_byte_indy(&mut self, address: u8, v: u8)
        ensures
            final(self)@ == old(self)@.poke(old(self)@.addr_indy(address), v),
    {
        let lo = self.get_byte_zpg(address);
        let hi = self.get_byte_zpg(address.wrapping_add(1));
        self.set_byte(make_word(lo, hi).wrapping_add(self.y as u16), v);
    }

    /// Reads the word at `address`: the low byte there, the high byte at the
    /// next address.
    pub fn get_word(&mut self, address: u16) -> (w: u16)
        ensures
            *final(self) == *old(self),
            w == old(self)@.peek_word(address),
    {
        let lo = self.get_byte(address);
        let hi = self.get_byte(address.wrapping_add(1));
        make_word(lo, hi)
    }

    /// Writes the word `v` at `address`: the low byte there, the high byte at
    /// the next address.
    pub fn set_word(&mut self, address: u16, v: u16)
        ensures
            final(self)@ == old(self)@.poke_word(address, v),
    {
        self.set_byte(address, (v % 256) as u8);
        self.set_byte(address.wrapping_add(1), (v / 256) as u8);
    }

    // Operand fetch

    /// Fetches the byte at the program counter and moves the program counter
    /// past it.
    pub fn read_byte(&mut self) -> (b: u8)
        ensures
            b == old(self)@.next_byte(),
            final(self)@ == old(self)@.advance(1),
    {
        let b = self.get_byte(self.pc);
        self.pc = self.pc.wrapping_add(1);
        b
    }

    /// Fetches the word at the program counter, low byte first, and moves
    /// the program counter past it.
    pub fn read_word(&mut self) -> (w: u16)
        ensures
            w == old(self)@.next_word(),
            final(self)@ == old(self)@.advance(2),
    {
        let lo = self.read_byte();
        let hi = self.read_byte();
        make_word(lo, hi)
    }

    // Stack

    /// Pushes `b`: writes it at 0x0100 + S, then lowers S by one.
    pub fn push_byte(&mut self, b: u8)
        ensures
            final(self)@ == old(self)@.push(b),
    {
        self.set_byte(STACK_BASE + self.s as u16, b);
        self.s = self.s.wrapping_sub(1);
    }

    /// Pulls a byte: raises S by one, then reads at 0x0100 + S.
    pub fn pop_byte(&mut self) -> (b: u8)
        ensures
            b == old(self)@.top(),
            final(self)@ == old(self)@.drop_top(),
    {
        self.s = self.s.wrapping_add(1);
        self.get_byte(STACK_BASE + self.s as u16)
    }

    /// Pushes `w`: the high byte first, then the low byte.
    pub fn push_word(&mut self, w: u16)
        ensures
            final(self)@ == old(self)@.push_word(w),
    {
        self.push_byte((w / 256) as u8);
        self.push_byte((w % 256) as u8);
    }

    /// Pulls a word: the low byte first, then the high byte.
    pub fn pop_word(&mut self) -> (w: u16)
        ensures
            w == old(self)@.top_word(),
            final(self)@ == old(self)@.drop_top().drop_top(),
    {
        let lo = self.pop_byte();
        let hi = self.pop_byte();
        make_word(lo, hi)
    }

    // Status

    /// Sets Z and N from the result byte `v`.
    pub fn update_zn(&mut self, v: u8)
        ensures
            final(self)@ == old(self)@.set_zn(v),
            final(self)@.flag(Status::Z) == (v == 0),
            final(self)@.flag(Status::N) == (v >= 0x80),
    {
        self.p.set(Status::Z, v == 0);
        self.p.set(Status::N, v >= 0x80);
        proof {
            lemma_with_zn(old(self)@.p, v, Status::C);
        }
    }

    // Register kernels

    /// ADC in binary mode: adds `m` and the carry to A.
    pub fn adc(&mut self, m: u8)
        requires
            !old(self)@.flag(Status::D),
        ensures
            final(self)@ == old(self)@.adc(m),
    {
        let c: u16 = if self.p.contains(Status::C) {
            1
        } else {
            0
        };
        let t: u16 = self.a as u16 + m as u16 + c;
        let r: u8 = (t % 256) as u8;
        let v: bool = ((self.a ^ r) & (m ^ r) & 0x80) != 0;
        self.p.set(Status::C, t > 255);
        self.p.set(Status::V, v);
        self.a = r;
        self.update_zn(r);
    }

    /// AND: `A := A & m`.
    pub fn and(&mut self, m: u8)
        ensures
            final(self)@ == old(self)@.and(m),
    {
        self.a = self.a & m;
        self.update_zn(self.a);
    }

    /// BIT: tests `m` against A; only flags change.
    pub fn bit(&mut self, m: u8)
        ensures
            final(self)@ == old(self)@.bit(m),
    {
        let t: u8 = self.a & m;
        self.p.set(Status::Z, t == 0);
        self.p.set(Status::N, m & 0x80 != 0);
        self.p.set(Status::V, m & 0x40 != 0);
    }

    /// CMP: compares A with `m`; only flags change. The carry flag says that
    /// `A >= m`, Z that `A == m`, and N is bit 7 of `(A - m) mod 256`.
    pub fn cmp(&mut self, m: u8)
        ensures
            final(self)@ == old(self)@.compare(old(self)@.a, m),
            final(self)@.flag(Status::C) == (old(self)@.a >= m),
            final(self)@.flag(Status::Z) == (old(self)@.a == m),
            final(self)@.flag(Status::N) == (wrap8(old(self)@.a - m) >= 0x80),
    {
        let t: u8 = self.a.wrapping_sub(m);
        self.p.set(Status::C, self.a >= m);
        self.update_zn(t);
        proof {
            lemma_compare(old(self)@, old(self)@.a, m);
        }
    }

    /// CPX: compares X with `m`; only flags change.
    pub fn cpx(&mut self, m: u8)
        ensures
            final(self)@ == old(self)@.compare(old(self)@.x, m),
    {
        let t: u8 = self.x.wrapping_sub(m);
        self.p.set(Status::C, self.x >= m);
        self.update_zn(t);
    }

    /// CPY: compares Y with `m`; only flags change.
    pub fn cpy(&mut self, m: u8)
        ensures
            final(self)@ == old(self)@.compare(old(self)@.y, m),
    {
        let t: u8 = self.y.wrapping_sub(m);
        self.p.set(Status::C, self.y >= m);
        self.update_zn(t);
    }

    /// EOR: `A := A ^ m`.
    pub fn eor(&mut self, m: u8)
        ensures
            final(self)@ == old(self)@.eor(m),
    {
        self.a = self.a ^ m;
        self.update_zn(self.a);
    }

    /// LDA: `A := m`. Z then says that `m` is zero and N that `m >= 0x80`.
    pub fn lda(&mut self, m: u8)
        ensures
            final(self)@ == old(self)@.lda(m),
            final(self)@.a == m,
            final(self)@.flag(Status::Z) == (m == 0),
            final(self)@.flag(Status::N) == (m >= 0x80),
    {
        self.a = m;
        self.update_zn(self.a);
    }

    /// LDX: `X := m`. Z then says that `m` is zero and N that `m >= 0x80`.
    pub fn ldx(&mut self, m: u8)
        ensures
            final(self)@ == old(self)@.ldx(m),
            final(self)@.x == m,
            final(self)@.flag(Status::Z) == (m == 0),
            final(self)@.flag(Status::N) == (m >= 0x80),
    {
        self.x = m;
        self.update_zn(self.x);
    }

    /// LDY: `Y := m`. Z then says that `m` is zero and N that `m >= 0x80`.
    pub fn ldy(&mut self, m: u8)
        ensures
            final(self)@ == old(self)@.ldy(m),
            final(self)@.y == m,
            final(self)@.flag(Status::Z) == (m == 0),
            final(self)@.flag(Status::N) == (m >= 0x80),
    {
        self.y = m;
        self.update_zn(self.y);
    }

    /// ORA: `A := A | m`.
    pub fn ora(&mut self, m: u8)
        ensures
            final(self)@ == old(self)@.ora(m),
    {
        self.a = self.a | m;
        self.update_zn(self.a);
    }

    /// SBC in binary mode: subtracts `m` and the borrow from A.
    pub fn sbc(&mut self, m: u8)
        requires
            !old(self)@.flag(Status::D),
        ensures
            final(self)@ == old(self)@.sbc(m),
    {
        self.adc(!m);
    }

    /// Whether the register kernel `op` cannot run as the flags stand: ADC
    /// and SBC cannot while the decimal flag is on.
    pub fn cannot_apply(&self, op: RegOp) -> (r: bool)
        ensures
            r == !self@.accepts(op),
    {
        match op {
            RegOp::Adc => self.p.contains(Status::D),
            RegOp::Sbc => self.p.contains(Status::D),
            _ => false,
        }
    }

    /// Runs the register kernel `op` on `m`.
    pub fn apply_reg(&mut self, op: RegOp, m: u8)
        requires
            old(self)@.accepts(op),
        ensures
            final(self)@ == old(self)@.reg_op(op, m),
    {
        match op {
            RegOp::Adc => self.adc(m),
            RegOp::And => self.and(m),
            RegOp::Bit => self.bit(m),
            RegOp::Cmp => self.cmp(m),
            RegOp::Cpx => self.cpx(m),
            RegOp::Cpy => self.cpy(m),
            RegOp::Eor => self.eor(m),
            RegOp::Lda => self.lda(m),
            RegOp::Ldx => self.ldx(m),
            RegOp::Ldy => self.ldy(m),
            RegOp::Ora => self.ora(m),
            RegOp::Sbc => self.sbc(m),
        }
    }

    // Memory kernels

    /// ASL: shifts `m` left by one bit; bit 7 goes to the carry flag.
    pub fn asl(&mut self, m: u8) -> (r: u8)
        ensures
            r == old(self)@.mem_result(MemOp::Asl, m),
            final(self)@ == old(self)@.mem_op(MemOp::Asl, m),
    {
        self.p.set(Status::C, m >= 0x80);
        let r: u8 = ((m as u16 * 2) % 256) as u8;
        self.update_zn(r);
        r
    }

    /// DEC: `(m - 1) mod 256`.
    pub fn dec(&mut self, m: u8) -> (r: u8)
        ensures
            r == old(self)@.mem_result(MemOp::Dec, m),
            final(self)@ == old(self)@.mem_op(MemOp::Dec, m),
    {
        let r: u8 = m.wrapping_sub(1);
        self.update_zn(r);
        r
    }

    /// INC: `(m + 1) mod 256`.
    pub fn inc(&mut self, m: u8) -> (r: u8)
        ensures
            r == old(self)@.mem_result(MemOp::Inc, m),
            final(self)@ == old(self)@.mem_op(MemOp::Inc, m),
    {
        let r: u8 = m.wrapping_add(1);
        self.update_zn(r);
        r
    }

    /// LSR: shifts `m` right by one bit; bit 0 goes to the carry flag.
    pub fn lsr(&mut self, m: u8) -> (r: u8)
        ensures
            r == old(self)@.mem_result(MemOp::Lsr, m),
            final(self)@ == old(self)@.mem_op(MemOp::Lsr, m),
    {
        self.p.set(Status::C, m % 2 == 1);
        let r: u8 = m / 2;
        self.update_zn(r);
        r
    }

    /// ROL: rotates `m` left by one bit: the carry flag comes in as bit 0
    /// and bit 7 goes out to the carry flag.
    pub fn rol(&mut self, m: u8) -> (r: u8)
        ensures
            r == old(self)@.mem_result(MemOp::Rol, m),
            final(self)@ == old(self)@.mem_op(MemOp::Rol, m),
    {
        let c: u16 = if self.p.contains(Status::C) {
            1
        } else {
            0
        };
        self.p.set(Status::C, m >= 0x80);
        let r: u8 = ((m as u16 * 2 + c) % 256) as u8;
        self.update_zn(r);
        r
    }

    /// ROR: rotates `m` right by one bit: the carry flag comes in as bit 7
    /// and bit 0 goes out to the carry flag.
    pub fn ror(&mut self, m: u8) -> (r: u8)
        ensures
            r == old(self)@.mem_result(MemOp::Ror, m),
            final(self)@ == old(self)@.mem_op(MemOp::Ror, m),
    {
        let c: u8 = if self.p.contains(Status::C) {
            1
        } else {
            0
        };
        self.p.set(Status::C, m % 2 == 1);
        let r: u8 = m / 2 + 128 * c;
        self.update_zn(r);
        r
    }

    /// Runs the memory kernel `op` on `m` and returns the byte it makes.
    pub fn apply_mem(&mut self, op: MemOp, m: u8) -> (r: u8)
        ensures
            r == old(self)@.mem_result(op, m),
            final(self)@ == old(self)@.mem_op(op, m),
    {
        match op {
            MemOp::Asl => self.asl(m),
            MemOp::Dec => self.dec(m),
            MemOp::Inc => self.inc(m),
            MemOp::Lsr => self.lsr(m),
            MemOp::Rol => self.rol(m),
            MemOp::Ror => self.ror(m),
        }
    }

    // Store kernels

    /// STA: yields A.
    pub fn sta(&mut self) -> (r: u8)
        ensures
            *final(self) == *old(self),
            r == old(self)@.a,
    {
        self.a
    }

    /// STX: yields X.
    pub fn stx(&mut self) -> (r: u8)
        ensures
            *final(self) == *old(self),
            r == old(self)@.x,
    {
        self.x
    }

    /// STY: yields Y.
    pub fn sty(&mut self) -> (r: u8)
        ensures
            *final(self) == *old(self),
            r == old(self)@.y,
    {
        self.y
    }

    /// Runs the store kernel `op` and returns the byte it yields.
    pub fn apply_set(&mut self, op: SetOp) -> (r: u8)
        ensures
            *final(self) == *old(self),
            r == old(self)@.set_op(op),
    {
        match op {
            SetOp::Sta => self.sta(),
            SetOp::Stx => self.stx(),
            SetOp::Sty => self.sty(),
        }
    }

    // Stores

    /// Store with zero-page addressing: the operand is fetched and the byte
    /// that `op` yields is written where it points.
    pub fn set_mem_zpg(&mut self, op: SetOp)
        ensures
            final(self)@ == old(self)@.write(op, Mode::Zpg),
    {
        let a = self.read_byte();
        let r = self.apply_set(op);
        self.set_byte_zpg(a, r);
    }

    /// Store with zero page,X addressing: the operand is fetched and the byte
    /// that `op` yields is written where it points.
    pub fn set_mem_zpgx(&mut self, op: SetOp)
        ensures
            final(self)@ == old(self)@.write(op, Mode::ZpgX),
    {
        let a = self.read_byte();
        let r = self.apply_set(op);
        self.set_byte_zpgx(a, r);
    }

    /// Store with zero page,Y addressing: the operand is fetched and the byte
    /// that `op` yields is written where it points.
    pub fn set_mem_zpgy(&mut self, op: SetOp)
        ensures
            final(self)@ == old(self)@.write(op, Mode::ZpgY),
    {
        let a = self.read_byte();
        let r = self.apply_set(op);
        self.set_byte_zpgy(a, r);
    }

    /// Store with absolute addressing: the operand is fetched and the byte
    /// that `op` yields is written where it points.
    pub fn set_mem_abs(&mut self, op: SetOp)
        ensures
            final(self)@ == old(self)@.write(op, Mode::Abs),
    {
        let a = self.read_word();
        let r = self.apply_set(op);
        self.set_byte_abs(a, r);
    }

    /// Store with absolute,X addressing: the operand is fetched and the byte
    /// that `op` yields is written where it points.
    pub fn set_mem_absx(&mut self, op: SetOp)
        ensures
            final(self)@ == old(self)@.write(op, Mode::AbsX),
    {
        let a = self.read_word();
        let r = self.apply_set(op);
        self.set_byte_absx(a, r);
    }

    /// Store with absolute,Y addressing: the operand is fetched and the byte
    /// that `op` yields is written where it points.
    pub fn set_mem_absy(&mut self, op: SetOp)
        ensures
            final(self)@ == old(self)@.write(op, Mode::AbsY),
    {
        let a = self.read_word();
        let r = self.apply_set(op);
        self.set_byte_absy(a, r);
    }

    /// Store with indexed indirect addressing: the operand is fetched and the byte
    /// that `op` yields is written where it points.
    pub fn set_mem_xind(&mut self, op: SetOp)
        ensures
            final(self)@ == old(self)@.write(op, Mode::XInd),
    {
        let a = self.read_byte();
        let r = self.apply_set(op);
        self.set_byte_xind(a, r);
    }

    /// Store with indirect indexed addressing: the operand is fetched and the byte
    /// that `op` yields is written where it points.
    pub fn set_mem_indy(&mut self, op: SetOp)
        ensures
            final(self)@ == old(self)@.write(op, Mode::IndY),
    {
        let a = self.read_byte();
        let r = self.apply_set(op);
        self.set_byte_indy(a, r);
    }

    // Read-modify-write

    /// Read-modify-write on the accumulator: `op` works on A and the result
    /// goes back to A.
    pub fn mod_acc(&mut self, op: MemOp)
        ensures
            final(self)@ == old(self)@.accumulator(op),
    {
        let r = self.apply_mem(op, self.a);
        self.a = r;
    }

    /// Read-modify-write with zero-page addressing: the operand is fetched,
    /// the byte it points to is read, `op` works on it, and the result is
    /// written back to the same address.
    pub fn mod_zpg(&mut self, op: MemOp)
        ensures
            final(self)@ == old(self)@.modify(op, Mode::Zpg),
    {
        let a = self.read_byte();
        let m = self.get_byte_zpg(a);
        let r = self.apply_mem(op, m);
        self.set_byte_zpg(a, r);
    }

    /// Read-modify-write with zero page,X addressing: the operand is fetched,
    /// the byte it points to is read, `op` works on it, and the result is
    /// written back to the same address.
    pub fn mod_zpgx(&mut self, op: MemOp)
        ensures
            final(self)@ == old(self)@.modify(op, Mode::ZpgX),
    {
        let a = self.read_byte();
        let m = self.get_byte_zpgx(a);
        let r = self.apply_mem(op, m);
        self.set_byte_zpgx(a, r);
    }

    /// Read-modify-write with zero page,Y addressing: the operand is fetched,
    /// the byte it points to is read, `op` works on it, and the result is
    /// written back to the same address.
    pub fn mod_zpgy(&mut self, op: MemOp)
        ensures
            final(self)@ == old(self)@.modify(op, Mode::ZpgY),
    {
        let a = self.read_byte();
        let m = self.get_byte_zpgy(a);
        let r = self.apply_mem(op, m);
        self.set_byte_zpgy(a, r);
    }

    /// Read-modify-write with absolute addressing: the operand is fetched,
    /// the byte it points to is read, `op` works on it, and the result is
    /// written back to the same address.
    pub fn mod_abs(&mut self, op: MemOp)
        ensures
            final(self)@ == old(self)@.modify(op, Mode::Abs),
    {
        let a = self.read_word();
        let m = self.get_byte_abs(a);
        let r = self.apply_mem(op, m);
        self.set_byte_abs(a, r);
    }

    /// Read-modify-write with absolute,X addressing: the operand is fetched,
    /// the byte it points to is read, `op` works on it, and the result is
    /// written back to the same address.
    pub fn mod_absx(&mut self, op: MemOp)
        ensures
            final(self)@ == old(self)@.modify(op, Mode::AbsX),
    {
        let a = self.read_word();
        let m = self.get_byte_absx(a);
        let r = self.apply_mem(op, m);
        self.set_byte_absx(a, r);
    }

    // Register operations

    /// Register operation with immediate addressing: `op` consumes the
    /// operand byte itself.
    pub fn mod_acc_imm(&mut self, op: RegOp)
        requires
            old(self)@.accepts(op),
        ensures
            final(self)@ == old(self)@.immediate(op),
    {
        let m = self.read_byte();
        self.apply_reg(op, m);
    }

    /// Register operation with zero-page addressing: the operand is fetched
    /// and `op` consumes the byte it points to.
    pub fn mod_acc_zpg(&mut self, op: RegOp)
        requires
            old(self)@.accepts(op),
        ensures
            final(self)@ == old(self)@.read(op, Mode::Zpg),
    {
        let operand = self.read_byte();
        let m = self.get_byte_zpg(operand);
        self.apply_reg(op, m);
    }

    /// Register operation with zero page,X addressing: the operand is fetched
    /// and `op` consumes the byte it points to.
    pub fn mod_acc_zpgx(&mut self, op: RegOp)
        requires
            old(self)@.accepts(op),
        ensures
            final(self)@ == old(self)@.read(op, Mode::ZpgX),
    {
        let operand = self.read_byte();
        let m = self.get_byte_zpgx(operand);
        self.apply_reg(op, m);
    }

    /// Register operation with zero page,Y addressing: the operand is fetched
    /// and `op` consumes the byte it points to.
    pub fn mod_acc_zpgy(&mut self, op: RegOp)
        requires
            old(self)@.accepts(op),
        ensures
            final(self)@ == old(self)@.read(op, Mode::ZpgY),
    {
        let operand = self.read_byte();
        let m = self.get_byte_zpgy(operand);
        self.apply_reg(op, m);
    }

    /// Register operation with absolute addressing: the operand is fetched
    /// and `op` consumes the byte it points to.
    pub fn mod_acc_abs(&mut self, op: RegOp)
        requires
            old(self)@.accepts(op),
        ensures
            final(self)@ == old(self)@.read(op, Mode::Abs),
    {
        let operand = self.read_word();
        let m = self.get_byte_abs(operand);
        self.apply_reg(op, m);
    }

    /// Register operation with absolute,X addressing: the operand is fetched
    /// and `op` consumes the byte it points to.
    pub fn mod_acc_absx(&mut self, op: RegOp)
        requires
            old(self)@.accepts(op),
        ensures
            final(self)@ == old(self)@.read(op, Mode::AbsX),
    {
        let operand = self.read_word();
        let m = self.get_byte_absx(operand);
        self.apply_reg(op, m);
    }

    /// Register operation with absolute,Y addressing: the operand is fetched
    /// and `op` consumes the byte it points to.
    pub fn mod_acc_absy(&mut self, op: RegOp)
        requires
            old(self)@.accepts(op),
        ensures
            final(self)@ == old(self)@.read(op, Mode::AbsY),
    {
        let operand = self.read_word();
        let m = self.get_byte_absy(operand);
        self.apply_reg(op, m);
    }

    /// Register operation with indexed indirect addressing: the operand is fetched
    /// and `op` consumes the byte it points to.
    pub fn mod_acc_xind(&mut self, op: RegOp)
        requires
            old(self)@.accepts(op),
        ensures
            final(self)@ == old(self)@.read(op, Mode::XInd),
    {
        let operand = self.read_byte();
        let m = self.get_byte_xind(operand);
        self.apply_reg(op, m);
    }

    /// Register operation with indirect indexed addressing: the operand is fetched
    /// and `op` consumes the byte it points to.
    pub fn mod_acc_indy(&mut self, op: RegOp)
        requires
            old(self)@.accepts(op),
        ensures
            final(self)@ == old(self)@.read(op, Mode::IndY),
    {
        let operand = self.read_byte();
        let m = self.get_byte_indy(operand);
        self.apply_reg(op, m);
    }

    // Control flow

    /// Relative branch: fetches the offset byte and, if `flag` has the value
    /// `set`, adds the offset, as a signed number, to the program counter.
    pub fn branch(&mut self, flag: Status, set: bool)
        ensures
            final(self)@ == old(self)@.branch(flag, set),
    {
        let offset = self.read_byte();
        if self.p.contains(flag) == set {
            if offset < 0x80 {
                self.pc = self.pc.wrapping_add(offset as u16);
            } else {
                self.pc = self.pc.wrapping_sub(0x100 - offset as u16);
            }
        }
    }
}

/// Composes a word from its low and high byte.
fn make_word(lo: u8, hi: u8) -> (w: u16)
    ensures
        w == word(lo, hi),
{
    hi as u16 * 256 + lo as u16
}

} // verus!
