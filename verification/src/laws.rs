//! Laws of the machine: what holds of every state and every operand,
//! proved from the model.

use crate::instruction::{spec_decode, CPUError, Instruction, Step};
use crate::machine::{high_byte, low_byte, signed, stack_addr, wrap16, wrap8, Machine};
use crate::ops::lemma_compare;
use crate::status::{lemma_with_zn, Status};
use vstd::prelude::*;

verus! {

/// Loading a byte into A, X or Y puts it there and leaves Z on exactly when
/// the byte is zero and N on exactly when it is at least 0x80.
pub proof fn law_load_sets_zn(m: Machine, v: u8)
    ensures
        m.lda(v).a == v,
        m.lda(v).flag(Status::Z) == (v == 0),
        m.lda(v).flag(Status::N) == (v >= 0x80),
        m.ldx(v).x == v,
        m.ldx(v).flag(Status::Z) == (v == 0),
        m.ldx(v).flag(Status::N) == (v >= 0x80),
        m.ldy(v).y == v,
        m.ldy(v).flag(Status::Z) == (v == 0),
        m.ldy(v).flag(Status::N) == (v >= 0x80),
{
    lemma_with_zn(m.p, v, Status::C);
}

/// Pulling after a push gives the pushed byte back and restores S, whatever
/// S was.
pub proof fn law_push_pull_byte(m: Machine, b: u8)
    requires
        m.wf(),
    ensures
        m.push(b).top() == b,
        m.push(b).drop_top().s == m.s,
        m.push(b).drop_top() == m.poke(stack_addr(m.s), b),
{
}

/// Pulling a word after pushing one gives the pushed word back and restores
/// S, whatever S was. The high byte stands in the cell that S selected and
/// the low byte in the cell that S - 1 selects, modulo 256.
pub proof fn law_push_pull_word(m: Machine, w: u16)
    requires
        m.wf(),
    ensures
        m.push_word(w).top_word() == w,
        m.push_word(w).drop_top().drop_top().s == m.s,
        m.push_word(w).peek(stack_addr(m.s)) == high_byte(w),
        m.push_word(w).peek(stack_addr(wrap8(m.s - 1))) == low_byte(w),
{
}

/// Unless S is zero when a word is pushed, its low byte stands at the address
/// just below that of its high byte.
pub proof fn law_pushed_word_low_byte_below(m: Machine, w: u16)
    requires
        m.wf(),
        m.s != 0,
    ensures
        m.push_word(w).mem[0x0100 + m.s] == high_byte(w),
        m.push_word(w).mem[0x0100 + m.s - 1] == low_byte(w),
{
}

/// Every address is read little-endian: a word is the byte at the address
/// plus 256 times the byte at the next address, modulo 65536. An address
/// that stands in page zero has its high byte at the next place modulo 256.
pub proof fn law_little_endian(m: Machine, addr: u16, zp: u8)
    ensures
        m.peek_word(addr) == m.peek(addr) + 256 * m.peek(wrap16(addr + 1)),
        m.jmp_ind().pc == m.peek(m.next_word()) + 256 * m.peek(wrap16(m.next_word() + 1)),
        m.next_word() == m.peek(m.pc) + 256 * m.peek(wrap16(m.pc + 1)),
        m.pointer(zp) == m.mem[zp as int] + 256 * m.mem[(zp + 1) % 256],
        m.addr_xind(zp) == m.mem[(zp + m.x) % 256] + 256 * m.mem[(zp + m.x + 1) % 256],
        m.addr_indy(zp) == (m.mem[zp as int] + 256 * m.mem[(zp + 1) % 256] + m.y) % 65536,
{
}

/// What JSR leaves on the stack is the address of its last byte, and RTS
/// leads to the address after the one on the stack. `m` and `later` have the
/// program counter one past the opcode.
proof fn lemma_call_return(m: Machine, later: Machine)
    requires
        m.wf(),
        later.s == m.jsr().s,
        later.top_word() == m.jsr().top_word(),
    ensures
        later.rts().pc == wrap16(m.pc + 2),
        later.rts().s == m.s,
{
    let w = wrap16(m.pc + 1);
    law_push_pull_word(m, w);
    assert(m.jsr().top_word() == m.push_word(w).top_word());
}

/// RTS after JSR returns to the byte that follows the JSR instruction and
/// restores S, provided that S and the two stack cells that JSR filled are
/// the same when RTS is reached. `call` is the machine with the program
/// counter at the JSR opcode, `back` the one with it at the RTS opcode.
pub proof fn law_jsr_rts(call: Machine, back: Machine)
    requires
        call.wf(),
        back.wf(),
        call.next_byte() == 0x20,
        back.next_byte() == 0x60,
        back.s == call.step().s,
        back.top_word() == call.step().top_word(),
    ensures
        call.step_result() == Ok::<Step, CPUError>(Step::Continue),
        back.step_result() == Ok::<Step, CPUError>(Step::Continue),
        back.step().pc == wrap16(call.pc + 3),
        back.step().s == call.s,
{
    let m = call.advance(1);
    let later = back.advance(1);
    assert(call.step() == m.jsr() && call.step_result() == Ok::<Step, CPUError>(Step::Continue)) by {
        assert(spec_decode(0x20) == Ok::<Instruction, CPUError>(Instruction::Jsr));
    }
    assert(back.step() == later.rts() && back.step_result() == Ok::<Step, CPUError>(
        Step::Continue,
    )) by {
        assert(spec_decode(0x60) == Ok::<Instruction, CPUError>(Instruction::Rts));
    }
    assert(later.top_word() == back.top_word());
    lemma_call_return(m, later);
}

/// A branch whose flag does not have the value it tests moves the program
/// counter past the offset byte and changes nothing else. One whose flag
/// has it moves the program counter on from there by the offset, read as a
/// signed 8-bit number, modulo 65536.
pub proof fn law_branch(m: Machine, flag: Status, set: bool)
    requires
        spec_decode(m.next_byte()) == Ok::<Instruction, CPUError>(Instruction::Branch(flag, set)),
    ensures
        m.step_result() == Ok::<Step, CPUError>(Step::Continue),
        m.flag(flag) != set ==> m.step() == m.advance(2),
        m.flag(flag) == set ==> m.step() == (Machine {
            pc: wrap16(m.pc + 2 + signed(m.peek(wrap16(m.pc + 1)))),
            ..m
        }),
{
}

/// The eight branch opcodes, each with the flag it tests and the value on
/// which it is taken: BCC and BCS test C, BNE and BEQ test Z, BPL and BMI
/// test N, BVC and BVS test V.
pub proof fn law_branch_opcodes()
    ensures
        spec_decode(0x90) == Ok::<Instruction, CPUError>(Instruction::Branch(Status::C, false)),
        spec_decode(0xB0) == Ok::<Instruction, CPUError>(Instruction::Branch(Status::C, true)),
        spec_decode(0xD0) == Ok::<Instruction, CPUError>(Instruction::Branch(Status::Z, false)),
        spec_decode(0xF0) == Ok::<Instruction, CPUError>(Instruction::Branch(Status::Z, true)),
        spec_decode(0x10) == Ok::<Instruction, CPUError>(Instruction::Branch(Status::N, false)),
        spec_decode(0x30) == Ok::<Instruction, CPUError>(Instruction::Branch(Status::N, true)),
        spec_decode(0x50) == Ok::<Instruction, CPUError>(Instruction::Branch(Status::V, false)),
        spec_decode(0x70) == Ok::<Instruction, CPUError>(Instruction::Branch(Status::V, true)),
{
}

/// After A is compared with `m`, the carry flag says that `A >= m`, Z that
/// `A == m`, and N is bit 7 of `(A - m) mod 256`. The same holds of X and Y.
pub proof fn law_compare(s: Machine, m: u8)
    ensures
        s.compare(s.a, m).flag(Status::C) == (s.a >= m),
        s.compare(s.a, m).flag(Status::Z) == (s.a == m),
        s.compare(s.a, m).flag(Status::N) == (wrap8(s.a - m) >= 0x80),
        s.compare(s.x, m).flag(Status::C) == (s.x >= m),
        s.compare(s.x, m).flag(Status::Z) == (s.x == m),
        s.compare(s.x, m).flag(Status::N) == (wrap8(s.x - m) >= 0x80),
        s.compare(s.y, m).flag(Status::C) == (s.y >= m),
        s.compare(s.y, m).flag(Status::Z) == (s.y == m),
        s.compare(s.y, m).flag(Status::N) == (wrap8(s.y - m) >= 0x80),
{
    lemma_compare(s, s.a, m);
    lemma_compare(s, s.x, m);
    lemma_compare(s, s.y, m);
}

} // verus!
