//! The fetch-decode-execute cycle of the processor.

use crate::cpu::CPU;
use crate::instruction::{decode, CPUError, Instruction, Step};
use crate::machine::Mode;
use crate::semantics::lemma_run_ends;
use crate::status::{StatusWord, PUSHED_BITS};
use vstd::prelude::*;

verus! {

impl CPU {
    /// Carries out `instr`, with the program counter one past its opcode.
    pub fn execute(&mut self, instr: Instruction)
        requires
            old(self)@.can_execute(instr),
        ensures
            final(self)@ == old(self)@.execute(instr),
    {
        match instr {
            Instruction::Brk => {},
            Instruction::Nop => {},
            Instruction::Immediate(op) => self.mod_acc_imm(op),
            Instruction::Read(op, mode) => match mode {
                Mode::Zpg => self.mod_acc_zpg(op),
                Mode::ZpgX => self.mod_acc_zpgx(op),
                Mode::ZpgY => self.mod_acc_zpgy(op),
                Mode::Abs => self.mod_acc_abs(op),
                Mode::AbsX => self.mod_acc_absx(op),
                Mode::AbsY => self.mod_acc_absy(op),
                Mode::XInd => self.mod_acc_xind(op),
                Mode::IndY => self.mod_acc_indy(op),
            },
            Instruction::Write(op, mode) => match mode {
                Mode::Zpg => self.set_mem_zpg(op),
                Mode::ZpgX => self.set_mem_zpgx(op),
                Mode::ZpgY => self.set_mem_zpgy(op),
                Mode::Abs => self.set_mem_abs(op),
                Mode::AbsX => self.set_mem_absx(op),
                Mode::AbsY => self.set_mem_absy(op),
                Mode::XInd => self.set_mem_xind(op),
                Mode::IndY => self.set_mem_indy(op),
            },
            Instruction::Modify(op, mode) => match mode {
                Mode::Zpg => self.mod_zpg(op),
                Mode::ZpgX => self.mod_zpgx(op),
                Mode::ZpgY => self.mod_zpgy(op),
                Mode::Abs => self.mod_abs(op),
                Mode::AbsX => self.mod_absx(op),
                Mode::AbsY => {
                    let a = self.read_word();
                    let m = self.get_byte_absy(a);
                    let r = self.apply_mem(op, m);
                    self.set_byte_absy(a, r);
                },
                Mode::XInd => {
                    let a = self.read_byte();
                    let m = self.get_byte_xind(a);
                    let r = self.apply_mem(op, m);
                    self.set_byte_xind(a, r);
                },
                Mode::IndY => {
                    let a = self.read_byte();
                    let m = self.get_byte_indy(a);
                    let r = self.apply_mem(op, m);
                    self.set_byte_indy(a, r);
                },
            },
            Instruction::Accumulator(op) => self.mod_acc(op),
            Instruction::Branch(flag, set) => self.branch(flag, set),
            Instruction::Flag(flag, on) => self.p.set(flag, on),
            Instruction::JmpAbs => {
                let target = self.get_word(self.pc);
                self.pc = target;
            },
            Instruction::JmpInd => {
                let vector = self.get_word(self.pc);
                let target = self.get_word(vector);
                self.pc = target;
            },
            Instruction::Jsr => {
                self.push_word(self.pc.wrapping_add(1));
                let target = self.get_word(self.pc);
                self.pc = target;
            },
            Instruction::Rts => {
                let w = self.pop_word();
                self.pc = w.wrapping_add(1);
            },
            Instruction::Tax => self.ldx(self.a),
            Instruction::Tay => self.ldy(self.a),
            Instruction::Tsx => self.ldx(self.s),
            Instruction::Txa => self.lda(self.x),
            Instruction::Txs => {
                self.s = self.x;
            },
            Instruction::Tya => self.lda(self.y),
            Instruction::Pha => self.push_byte(self.a),
            Instruction::Pla => {
                let v = self.pop_byte();
                self.lda(v);
            },
            Instruction::Php => self.push_byte(self.p.bits() | PUSHED_BITS),
            Instruction::Plp => {
                let v = self.pop_byte();
                self.p = StatusWord::from_bits_truncate(v);
            },
            Instruction::Dex => self.ldx(self.x.wrapping_sub(1)),
            Instruction::Dey => self.ldy(self.y.wrapping_sub(1)),
            Instruction::Inx => self.ldx(self.x.wrapping_add(1)),
            Instruction::Iny => self.ldy(self.y.wrapping_add(1)),
        }
    }

    /// Makes one step: fetches an opcode, decodes it and carries the
    /// instruction out. Stops short of carrying it out where the byte is no
    /// opcode or the instruction is not implemented, and at BRK.
    pub fn step(&mut self) -> (r: Result<Step, CPUError>)
        ensures
            r == old(self)@.step_result(),
            final(self)@ == old(self)@.step(),
    {
        let opcode = self.read_byte();
        match decode(opcode) {
            Err(e) => Err(e),
            Ok(instr) => {
                if self.rejects(instr) {
                    Err(CPUError::Unimplemented(opcode))
                } else {
                    self.execute(instr);
                    match instr {
                        Instruction::Brk => Ok(Step::Halt),
                        _ => Ok(Step::Continue),
                    }
                }
            },
        }
    }

    /// Whether `instr` cannot be carried out as the flags stand.
    pub fn rejects(&self, instr: Instruction) -> (r: bool)
        ensures
            r == !self@.can_execute(instr),
    {
        match instr {
            Instruction::Immediate(op) => self.cannot_apply(op),
            Instruction::Read(op, _) => self.cannot_apply(op),
            _ => false,
        }
    }

    /// Makes at most `limit` steps, and stops after the first that halts or
    /// fails. Returns how that step ended, or `None` if no step did so.
    pub fn run_steps(&mut self, limit: u64) -> (r: Option<Result<(), CPUError>>)
        ensures
            r == old(self)@.run_result(limit as nat),
            final(self)@ == old(self)@.run_for(limit as nat),
    {
        let mut left: u64 = limit;
        while left > 0
            invariant
                old(self)@.run_result(limit as nat) == self@.run_result(left as nat),
                old(self)@.run_for(limit as nat) == self@.run_for(left as nat),
            decreases left,
        {
            match self.step() {
                Ok(Step::Continue) => {},
                Ok(Step::Halt) => {
                    return Some(Ok(()));
                },
                Err(e) => {
                    return Some(Err(e));
                },
            }
            left = left - 1;
        }
        None
    }

    /// Runs until BRK, which is success, or until a byte that is no opcode
    /// or an instruction that is not implemented, which is the error.
    pub fn run(&mut self) -> (r: Result<(), CPUError>)
        requires
            old(self)@.halts(),
        ensures
            r == old(self)@.run_outcome(),
            final(self)@ == old(self)@.run(),
    {
        let ghost mut left: nat = old(self)@.steps();
        proof {
            lemma_run_ends(old(self)@, left);
        }
        loop
            invariant
                self@.halts_within(left),
                old(self)@.run_outcome() == self@.run_result(left).unwrap(),
                old(self)@.run() == self@.run_for(left),
            decreases left,
        {
            match self.step() {
                Ok(Step::Continue) => {},
                Ok(Step::Halt) => {
                    return Ok(());
                },
                Err(e) => {
                    return Err(e);
                },
            }
            proof {
                left = (left - 1) as nat;
            }
        }
    }
}

} // verus!
