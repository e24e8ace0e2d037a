//! What instructions do in the model: the effect of each instruction, of one
//! step of the fetch-decode-execute cycle, and of a run.

use crate::instruction::{spec_decode, CPUError, Instruction, Step};
use crate::machine::{signed, wrap16, wrap8, Machine, Mode};
use crate::ops::{MemOp, RegOp, SetOp};
use crate::status::{Status, FLAG_BITS, PUSHED_BITS};
use vstd::prelude::*;

verus! {

impl Machine {
    // Instructions with an operand. Each is described for a machine whose
    // program counter is at the operand, one past the opcode.

    /// A register kernel on the operand byte itself.
    pub open spec fn immediate(self, op: RegOp) -> Machine {
        self.advance(1).reg_op(op, self.next_byte())
    }

    /// A register kernel on the byte that `mode` selects.
    pub open spec fn read(self, op: RegOp, mode: Mode) -> Machine {
        self.skip_operand(mode).reg_op(op, self.peek(self.target(mode)))
    }

    /// A store kernel into the byte that `mode` selects.
    pub open spec fn write(self, op: SetOp, mode: Mode) -> Machine {
        self.skip_operand(mode).poke(self.target(mode), self.set_op(op))
    }

    /// A memory kernel on the byte that `mode` selects: the byte is read,
    /// transformed, and written back to the same address.
    pub open spec fn modify(self, op: MemOp, mode: Mode) -> Machine {
        let addr = self.target(mode);
        let m = self.peek(addr);
        self.skip_operand(mode).mem_op(op, m).poke(addr, self.mem_result(op, m))
    }

    /// A memory kernel on the accumulator.
    pub open spec fn accumulator(self, op: MemOp) -> Machine {
        Machine { a: self.mem_result(op, self.a), ..self.mem_op(op, self.a) }
    }

    /// Where a branch with the offset byte `offset` leads from `pc`: the
    /// offset is a signed 8-bit number, and the sum wraps modulo 65536.
    pub open spec fn branch_target(pc: u16, offset: u8) -> u16 {
        wrap16(pc + signed(offset))
    }

    /// A relative branch on `flag`. The offset byte is fetched; if the flag's
    /// value is `set`, the signed offset is added to the program counter,
    /// else nothing more happens.
    pub open spec fn branch(self, flag: Status, set: bool) -> Machine {
        let next = self.advance(1);
        if self.flag(flag) == set {
            Machine { pc: Self::branch_target(next.pc, self.next_byte()), ..next }
        } else {
            next
        }
    }

    /// JMP absolute: the program counter becomes the operand word.
    pub open spec fn jmp_abs(self) -> Machine {
        Machine { pc: self.next_word(), ..self }
    }

    /// JMP indirect: the program counter becomes the word that stands at the
    /// operand word.
    pub open spec fn jmp_ind(self) -> Machine {
        Machine { pc: self.peek_word(self.next_word()), ..self }
    }

    /// JSR: the address of the last byte of the instruction is pushed, high
    /// byte first, then the program counter becomes the operand word.
    pub open spec fn jsr(self) -> Machine {
        let pushed = self.push_word(wrap16(self.pc + 1));
        Machine { pc: pushed.next_word(), ..pushed }
    }

    /// RTS: a word is pulled, and the program counter becomes that word plus
    /// one.
    pub open spec fn rts(self) -> Machine {
        Machine { pc: wrap16(self.top_word() + 1), ..self.drop_top().drop_top() }
    }

    // Instructions without an operand

    /// PLA: A is pulled from the stack; Z and N follow A.
    pub open spec fn pla(self) -> Machine {
        Machine { a: self.top(), ..self.drop_top() }.set_zn(self.top())
    }

    /// PHP: P is pushed with the break flag and bit 5 forced on.
    pub open spec fn php(self) -> Machine {
        self.push(self.p | PUSHED_BITS)
    }

    /// PLP: P is pulled from the stack; bit 5, which names no flag, is
    /// dropped.
    pub open spec fn plp(self) -> Machine {
        Machine { p: self.top() & FLAG_BITS, ..self.drop_top() }
    }

    /// Whether `instr` can be carried out: ADC and SBC cannot while the
    /// decimal flag is on.
    pub open spec fn can_execute(self, instr: Instruction) -> bool {
        match instr {
            Instruction::Immediate(op) => self.accepts(op),
            Instruction::Read(op, _) => self.accepts(op),
            _ => true,
        }
    }

    /// The machine after `instr` has been carried out, for a machine whose
    /// program counter is one past the opcode.
    pub open spec fn execute(self, instr: Instruction) -> Machine {
        match instr {
            Instruction::Brk => self,
            Instruction::Nop => self,
            Instruction::Immediate(op) => self.immediate(op),
            Instruction::Read(op, mode) => self.read(op, mode),
            Instruction::Write(op, mode) => self.write(op, mode),
            Instruction::Modify(op, mode) => self.modify(op, mode),
            Instruction::Accumulator(op) => self.accumulator(op),
            Instruction::Branch(flag, set) => self.branch(flag, set),
            Instruction::Flag(flag, on) => self.set_flag(flag, on),
            Instruction::JmpAbs => self.jmp_abs(),
            Instruction::JmpInd => self.jmp_ind(),
            Instruction::Jsr => self.jsr(),
            Instruction::Rts => self.rts(),
            Instruction::Tax => self.ldx(self.a),
            Instruction::Tay => self.ldy(self.a),
            Instruction::Tsx => self.ldx(self.s),
            Instruction::Txa => self.lda(self.x),
            Instruction::Txs => Machine { s: self.x, ..self },
            Instruction::Tya => self.lda(self.y),
            Instruction::Pha => self.push(self.a),
            Instruction::Pla => self.pla(),
            Instruction::Php => self.php(),
            Instruction::Plp => self.plp(),
            Instruction::Dex => self.ldx(wrap8(self.x - 1)),
            Instruction::Dey => self.ldy(wrap8(self.y - 1)),
            Instruction::Inx => self.ldx(wrap8(self.x + 1)),
            Instruction::Iny => self.ldy(wrap8(self.y + 1)),
        }
    }

    // The fetch-decode-execute cycle

    /// How the step from this machine ends. An opcode that the map does not
    /// know or that cannot be carried out is an error; BRK halts; every
    /// other instruction lets the next one follow.
    pub open spec fn step_result(self) -> Result<Step, CPUError> {
        let opcode = self.next_byte();
        match spec_decode(opcode) {
            Err(e) => Err(e),
            Ok(instr) => if !self.can_execute(instr) {
                Err(CPUError::Unimplemented(opcode))
            } else if instr == Instruction::Brk {
                Ok(Step::Halt)
            } else {
                Ok(Step::Continue)
            },
        }
    }

    /// The machine after one step. The opcode is fetched, so that the
    /// program counter is one past it; where the step ends in an error or
    /// halts, nothing else changes.
    pub open spec fn step(self) -> Machine {
        let fetched = self.advance(1);
        match spec_decode(self.next_byte()) {
            Ok(instr) if self.can_execute(instr) => fetched.execute(instr),
            _ => fetched,
        }
    }

    /// How a run of at most `limit` steps ends: `None` when `limit` steps
    /// were made and none of them halted or failed.
    pub open spec fn run_result(self, limit: nat) -> Option<Result<(), CPUError>>
        decreases limit,
    {
        if limit == 0 {
            None
        } else {
            match self.step_result() {
                Ok(Step::Continue) => self.step().run_result((limit - 1) as nat),
                Ok(Step::Halt) => Some(Ok(())),
                Err(e) => Some(Err(e)),
            }
        }
    }

    /// The machine after a run of at most `limit` steps, which ends with the
    /// first step that halts or fails.
    pub open spec fn run_for(self, limit: nat) -> Machine
        decreases limit,
    {
        if limit == 0 {
            self
        } else {
            match self.step_result() {
                Ok(Step::Continue) => self.step().run_for((limit - 1) as nat),
                _ => self.step(),
            }
        }
    }

    /// Whether a run halts or fails within `limit` steps.
    pub open spec fn halts_within(self, limit: nat) -> bool {
        self.run_result(limit) is Some
    }

    /// Whether a run halts or fails at all.
    pub open spec fn halts(self) -> bool {
        exists|limit: nat| self.halts_within(limit)
    }

    /// Some number of steps within which a run from this machine ends, if
    /// it ends.
    pub open spec fn steps(self) -> nat {
        choose|limit: nat| self.halts_within(limit)
    }

    /// The machine after a run that ends.
    pub open spec fn run(self) -> Machine
        recommends
            self.halts(),
    {
        self.run_for(self.steps())
    }

    /// How a run that ends does so: `Ok` at BRK, else the error.
    pub open spec fn run_outcome(self) -> Result<(), CPUError>
        recommends
            self.halts(),
    {
        self.run_result(self.steps()).unwrap()
    }
}

/// A run that ends within `n` steps is the same run under every larger limit.
pub proof fn lemma_run_stable(m: Machine, n: nat, k: nat)
    requires
        m.halts_within(n),
        n <= k,
    ensures
        m.run_result(k) == m.run_result(n),
        m.run_for(k) == m.run_for(n),
    decreases n,
{
    if m.step_result() == Ok::<Step, CPUError>(Step::Continue) {
        lemma_run_stable(m.step(), (n - 1) as nat, (k - 1) as nat);
    }
}

/// A run that ends within `n` steps ends as `run` and `run_outcome` say.
pub proof fn lemma_run_ends(m: Machine, n: nat)
    requires
        m.halts_within(n),
    ensures
        m.halts(),
        m.run() == m.run_for(n),
        m.run_result(n) == Some(m.run_outcome()),
{
    let c = m.steps();
    if c <= n {
        lemma_run_stable(m, c, n);
    } else {
        lemma_run_stable(m, n, c);
    }
}

} // verus!
