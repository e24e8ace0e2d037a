//! The instruction set: what the opcode bytes mean.

use crate::machine::Mode;
use crate::ops::{MemOp, RegOp, SetOp};
use crate::status::Status;
use vstd::prelude::*;

verus! {

/// An instruction: an operation together with the way it finds its operand.
#[derive(Clone, Copy, Debug, PartialEq, Eq, Structural)]
pub enum Instruction {
    /// BRK: stop.
    Brk,
    /// NOP: do nothing.
    Nop,
    /// A register kernel on the operand byte itself.
    Immediate(RegOp),
    /// A register kernel on the byte that a memory mode selects.
    Read(RegOp, Mode),
    /// A store kernel into the byte that a memory mode selects.
    Write(SetOp, Mode),
    /// A memory kernel on the byte that a memory mode selects, written back
    /// in place.
    Modify(MemOp, Mode),
    /// A memory kernel on the accumulator.
    Accumulator(MemOp),
    /// A relative branch, taken when the flag has the given value.
    Branch(Status, bool),
    /// Switch the flag to the given value.
    Flag(Status, bool),
    /// JMP to the operand word.
    JmpAbs,
    /// JMP to the word that stands at the operand word.
    JmpInd,
    /// JSR: call the subroutine at the operand word.
    Jsr,
    /// RTS: return from a subroutine.
    Rts,
    /// TAX: X := A.
    Tax,
    /// TAY: Y := A.
    Tay,
    /// TSX: X := S.
    Tsx,
    /// TXA: A := X.
    Txa,
    /// TXS: S := X.
    Txs,
    /// TYA: A := Y.
    Tya,
    /// PHA: push A.
    Pha,
    /// PLA: pull A.
    Pla,
    /// PHP: push P.
    Php,
    /// PLP: pull P.
    Plp,
    /// DEX: X := X - 1.
    Dex,
    /// DEY: Y := Y - 1.
    Dey,
    /// INX: X := X + 1.
    Inx,
    /// INY: Y := Y + 1.
    Iny,
}

/// Why the processor stopped without reaching BRK.
#[allow(clippy::upper_case_acronyms)]
#[derive(Clone, Copy, Debug, PartialEq, Eq, Structural)]
pub enum CPUError {
    /// The byte is no opcode of the 6502.
    IllegalInstruction(u8),
    /// The byte is an opcode that this core does not carry out: RTI, or ADC
    /// or SBC while the decimal flag is on.
    Unimplemented(u8),
}

/// How one instruction ended.
#[derive(Clone, Copy, Debug, PartialEq, Eq, Structural)]
pub enum Step {
    /// The instruction was carried out and the next one can follow.
    Continue,
    /// The instruction was BRK.
    Halt,
}

/// The opcode map of the 6502, by mnemonic.
pub open spec fn spec_decode(opcode: u8) -> Result<Instruction, CPUError> {
    match opcode {
        // ADC
        0x69 => Ok(Instruction::Immediate(RegOp::Adc)),
        0x65 => Ok(Instruction::Read(RegOp::Adc, Mode::Zpg)),
        0x75 => Ok(Instruction::Read(RegOp::Adc, Mode::ZpgX)),
        0x6D => Ok(Instruction::Read(RegOp::Adc, Mode::Abs)),
        0x7D => Ok(Instruction::Read(RegOp::Adc, Mode::AbsX)),
        0x79 => Ok(Instruction::Read(RegOp::Adc, Mode::AbsY)),
        0x61 => Ok(Instruction::Read(RegOp::Adc, Mode::XInd)),
        0x71 => Ok(Instruction::Read(RegOp::Adc, Mode::IndY)),
        // AND
        0x29 => Ok(Instruction::Immediate(RegOp::And)),
        0x25 => Ok(Instruction::Read(RegOp::And, Mode::Zpg)),
        0x35 => Ok(Instruction::Read(RegOp::And, Mode::ZpgX)),
        0x2D => Ok(Instruction::Read(RegOp::And, Mode::Abs)),
        0x3D => Ok(Instruction::Read(RegOp::And, Mode::AbsX)),
        0x39 => Ok(Instruction::Read(RegOp::And, Mode::AbsY)),
        0x21 => Ok(Instruction::Read(RegOp::And, Mode::XInd)),
        0x31 => Ok(Instruction::Read(RegOp::And, Mode::IndY)),
        // ASL
        0x0A => Ok(Instruction::Accumulator(MemOp::Asl)),
        0x06 => Ok(Instruction::Modify(MemOp::Asl, Mode::Zpg)),
        0x16 => Ok(Instruction::Modify(MemOp::Asl, Mode::ZpgX)),
        0x0E => Ok(Instruction::Modify(MemOp::Asl, Mode::Abs)),
        0x1E => Ok(Instruction::Modify(MemOp::Asl, Mode::AbsX)),
        // BIT
        0x24 => Ok(Instruction::Read(RegOp::Bit, Mode::Zpg)),
        0x2C => Ok(Instruction::Read(RegOp::Bit, Mode::Abs)),
        // CMP
        0xC9 => Ok(Instruction::Immediate(RegOp::Cmp)),
        0xC5 => Ok(Instruction::Read(RegOp::Cmp, Mode::Zpg)),
        0xD5 => Ok(Instruction::Read(RegOp::Cmp, Mode::ZpgX)),
        0xCD => Ok(Instruction::Read(RegOp::Cmp, Mode::Abs)),
        0xDD => Ok(Instruction::Read(RegOp::Cmp, Mode::AbsX)),
        0xD9 => Ok(Instruction::Read(RegOp::Cmp, Mode::AbsY)),
        0xC1 => Ok(Instruction::Read(RegOp::Cmp, Mode::XInd)),
        0xD1 => Ok(Instruction::Read(RegOp::Cmp, Mode::IndY)),
        // CPX
        0xE0 => Ok(Instruction::Immediate(RegOp::Cpx)),
        0xE4 => Ok(Instruction::Read(RegOp::Cpx, Mode::Zpg)),
        0xEC => Ok(Instruction::Read(RegOp::Cpx, Mode::Abs)),
        // CPY
        0xC0 => Ok(Instruction::Immediate(RegOp::Cpy)),
        0xC4 => Ok(Instruction::Read(RegOp::Cpy, Mode::Zpg)),
        0xCC => Ok(Instruction::Read(RegOp::Cpy, Mode::Abs)),
        // DEC
        0xC6 => Ok(Instruction::Modify(MemOp::Dec, Mode::Zpg)),
        0xD6 => Ok(Instruction::Modify(MemOp::Dec, Mode::ZpgX)),
        0xCE => Ok(Instruction::Modify(MemOp::Dec, Mode::Abs)),
        0xDE => Ok(Instruction::Modify(MemOp::Dec, Mode::AbsX)),
        // EOR
        0x49 => Ok(Instruction::Immediate(RegOp::Eor)),
        0x45 => Ok(Instruction::Read(RegOp::Eor, Mode::Zpg)),
        0x55 => Ok(Instruction::Read(RegOp::Eor, Mode::ZpgX)),
        0x4D => Ok(Instruction::Read(RegOp::Eor, Mode::Abs)),
        0x5D => Ok(Instruction::Read(RegOp::Eor, Mode::AbsX)),
        0x59 => Ok(Instruction::Read(RegOp::Eor, Mode::AbsY)),
        0x41 => Ok(Instruction::Read(RegOp::Eor, Mode::XInd)),
        0x51 => Ok(Instruction::Read(RegOp::Eor, Mode::IndY)),
        // INC
        0xE6 => Ok(Instruction::Modify(MemOp::Inc, Mode::Zpg)),
        0xF6 => Ok(Instruction::Modify(MemOp::Inc, Mode::ZpgX)),
        0xEE => Ok(Instruction::Modify(MemOp::Inc, Mode::Abs)),
        0xFE => Ok(Instruction::Modify(MemOp::Inc, Mode::AbsX)),
        // LDA
        0xA9 => Ok(Instruction::Immediate(RegOp::Lda)),
        0xA5 => Ok(Instruction::Read(RegOp::Lda, Mode::Zpg)),
        0xB5 => Ok(Instruction::Read(RegOp::Lda, Mode::ZpgX)),
        0xAD => Ok(Instruction::Read(RegOp::Lda, Mode::Abs)),
        0xBD => Ok(Instruction::Read(RegOp::Lda, Mode::AbsX)),
        0xB9 => Ok(Instruction::Read(RegOp::Lda, Mode::AbsY)),
        0xA1 => Ok(Instruction::Read(RegOp::Lda, Mode::XInd)),
        0xB1 => Ok(Instruction::Read(RegOp::Lda, Mode::IndY)),
        // LDX
        0xA2 => Ok(Instruction::Immediate(RegOp::Ldx)),
        0xA6 => Ok(Instruction::Read(RegOp::Ldx, Mode::Zpg)),
        0xB6 => Ok(Instruction::Read(RegOp::Ldx, Mode::ZpgY)),
        0xAE => Ok(Instruction::Read(RegOp::Ldx, Mode::Abs)),
        0xBE => Ok(Instruction::Read(RegOp::Ldx, Mode::AbsY)),
        // LDY
        0xA0 => Ok(Instruction::Immediate(RegOp::Ldy)),
        0xA4 => Ok(Instruction::Read(RegOp::Ldy, Mode::Zpg)),
        0xB4 => Ok(Instruction::Read(RegOp::Ldy, Mode::ZpgX)),
        0xAC => Ok(Instruction::Read(RegOp::Ldy, Mode::Abs)),
        0xBC => Ok(Instruction::Read(RegOp::Ldy, Mode::AbsX)),
        // LSR
        0x4A => Ok(Instruction::Accumulator(MemOp::Lsr)),
        0x46 => Ok(Instruction::Modify(MemOp::Lsr, Mode::Zpg)),
        0x56 => Ok(Instruction::Modify(MemOp::Lsr, Mode::ZpgX)),
        0x4E => Ok(Instruction::Modify(MemOp::Lsr, Mode::Abs)),
        0x5E => Ok(Instruction::Modify(MemOp::Lsr, Mode::AbsX)),
        // ORA
        0x09 => Ok(Instruction::Immediate(RegOp::Ora)),
        0x05 => Ok(Instruction::Read(RegOp::Ora, Mode::Zpg)),
        0x15 => Ok(Instruction::Read(RegOp::Ora, Mode::ZpgX)),
        0x0D => Ok(Instruction::Read(RegOp::Ora, Mode::Abs)),
        0x1D => Ok(Instruction::Read(RegOp::Ora, Mode::AbsX)),
        0x19 => Ok(Instruction::Read(RegOp::Ora, Mode::AbsY)),
        0x01 => Ok(Instruction::Read(RegOp::Ora, Mode::XInd)),
        0x11 => Ok(Instruction::Read(RegOp::Ora, Mode::IndY)),
        // ROL
        0x2A => Ok(Instruction::Accumulator(MemOp::Rol)),
        0x26 => Ok(Instruction::Modify(MemOp::Rol, Mode::Zpg)),
        0x36 => Ok(Instruction::Modify(MemOp::Rol, Mode::ZpgX)),
        0x2E => Ok(Instruction::Modify(MemOp::Rol, Mode::Abs)),
        0x3E => Ok(Instruction::Modify(MemOp::Rol, Mode::AbsX)),
        // ROR
        0x6A => Ok(Instruction::Accumulator(MemOp::Ror)),
        0x66 => Ok(Instruction::Modify(MemOp::Ror, Mode::Zpg)),
        0x76 => Ok(Instruction::Modify(MemOp::Ror, Mode::ZpgX)),
        0x6E => Ok(Instruction::Modify(MemOp::Ror, Mode::Abs)),
        0x7E => Ok(Instruction::Modify(MemOp::Ror, Mode::AbsX)),
        // SBC
        0xE9 => Ok(Instruction::Immediate(RegOp::Sbc)),
        0xE5 => Ok(Instruction::Read(RegOp::Sbc, Mode::Zpg)),
        0xF5 => Ok(Instruction::Read(RegOp::Sbc, Mode::ZpgX)),
        0xED => Ok(Instruction::Read(RegOp::Sbc, Mode::Abs)),
        0xFD => Ok(Instruction::Read(RegOp::Sbc, Mode::AbsX)),
        0xF9 => Ok(Instruction::Read(RegOp::Sbc, Mode::AbsY)),
        0xE1 => Ok(Instruction::Read(RegOp::Sbc, Mode::XInd)),
        0xF1 => Ok(Instruction::Read(RegOp::Sbc, Mode::IndY)),
        // STA
        0x85 => Ok(Instruction::Write(SetOp::Sta, Mode::Zpg)),
        0x95 => Ok(Instruction::Write(SetOp::Sta, Mode::ZpgX)),
        0x8D => Ok(Instruction::Write(SetOp::Sta, Mode::Abs)),
        0x9D => Ok(Instruction::Write(SetOp::Sta, Mode::AbsX)),
        0x99 => Ok(Instruction::Write(SetOp::Sta, Mode::AbsY)),
        0x81 => Ok(Instruction::Write(SetOp::Sta, Mode::XInd)),
        0x91 => Ok(Instruction::Write(SetOp::Sta, Mode::IndY)),
        // STX
        0x86 => Ok(Instruction::Write(SetOp::Stx, Mode::Zpg)),
        0x96 => Ok(Instruction::Write(SetOp::Stx, Mode::ZpgY)),
        0x8E => Ok(Instruction::Write(SetOp::Stx, Mode::Abs)),
        // STY
        0x84 => Ok(Instruction::Write(SetOp::Sty, Mode::Zpg)),
        0x94 => Ok(Instruction::Write(SetOp::Sty, Mode::ZpgX)),
        0x8C => Ok(Instruction::Write(SetOp::Sty, Mode::Abs)),
        // Branches: BCC, BCS, BEQ, BNE, BMI, BPL, BVC, BVS
        0x90 => Ok(Instruction::Branch(Status::C, false)),
        0xB0 => Ok(Instruction::Branch(Status::C, true)),
        0xF0 => Ok(Instruction::Branch(Status::Z, true)),
        0xD0 => Ok(Instruction::Branch(Status::Z, false)),
        0x30 => Ok(Instruction::Branch(Status::N, true)),
        0x10 => Ok(Instruction::Branch(Status::N, false)),
        0x50 => Ok(Instruction::Branch(Status::V, false)),
        0x70 => Ok(Instruction::Branch(Status::V, true)),
        // Flags: CLC, SEC, CLD, SED, CLI, SEI, CLV
        0x18 => Ok(Instruction::Flag(Status::C, false)),
        0x38 => Ok(Instruction::Flag(Status::C, true)),
        0xD8 => Ok(Instruction::Flag(Status::D, false)),
        0xF8 => Ok(Instruction::Flag(Status::D, true)),
        0x58 => Ok(Instruction::Flag(Status::I, false)),
        0x78 => Ok(Instruction::Flag(Status::I, true)),
        0xB8 => Ok(Instruction::Flag(Status::V, false)),
        // Implied
        0x00 => Ok(Instruction::Brk),
        0xEA => Ok(Instruction::Nop),
        0x4C => Ok(Instruction::JmpAbs),
        0x6C => Ok(Instruction::JmpInd),
        0x20 => Ok(Instruction::Jsr),
        0x60 => Ok(Instruction::Rts),
        0xAA => Ok(Instruction::Tax),
        0xA8 => Ok(Instruction::Tay),
        0xBA => Ok(Instruction::Tsx),
        0x8A => Ok(Instruction::Txa),
        0x9A => Ok(Instruction::Txs),
        0x98 => Ok(Instruction::Tya),
        0x48 => Ok(Instruction::Pha),
        0x68 => Ok(Instruction::Pla),
        0x08 => Ok(Instruction::Php),
        0x28 => Ok(Instruction::Plp),
        0xCA => Ok(Instruction::Dex),
        0x88 => Ok(Instruction::Dey),
        0xE8 => Ok(Instruction::Inx),
        0xC8 => Ok(Instruction::Iny),
        // RTI
        0x40 => Err(CPUError::Unimplemented(opcode)),
        _ => Err(CPUError::IllegalInstruction(opcode)),
    }
}

/// Decodes an opcode byte.
pub fn decode(opcode: u8) -> (r: Result<Instruction, CPUError>)
    ensures
        r == spec_decode(opcode),
{
    match opcode {
        0x00 => Ok(Instruction::Brk),
        0x01 => Ok(Instruction::Read(RegOp::Ora, Mode::XInd)),
        0x05 => Ok(Instruction::Read(RegOp::Ora, Mode::Zpg)),
        0x06 => Ok(Instruction::Modify(MemOp::Asl, Mode::Zpg)),
        0x08 => Ok(Instruction::Php),
        0x09 => Ok(Instruction::Immediate(RegOp::Ora)),
        0x0A => Ok(Instruction::Accumulator(MemOp::Asl)),
        0x0D => Ok(Instruction::Read(RegOp::Ora, Mode::Abs)),
        0x0E => Ok(Instruction::Modify(MemOp::Asl, Mode::Abs)),
        0x10 => Ok(Instruction::Branch(Status::N, false)),
        0x11 => Ok(Instruction::Read(RegOp::Ora, Mode::IndY)),
        0x15 => Ok(Instruction::Read(RegOp::Ora, Mode::ZpgX)),
        0x16 => Ok(Instruction::Modify(MemOp::Asl, Mode::ZpgX)),
        0x18 => Ok(Instruction::Flag(Status::C, false)),
        0x19 => Ok(Instruction::Read(RegOp::Ora, Mode::AbsY)),
        0x1D => Ok(Instruction::Read(RegOp::Ora, Mode::AbsX)),
        0x1E => Ok(Instruction::Modify(MemOp::Asl, Mode::AbsX)),
        0x20 => Ok(Instruction::Jsr),
        0x21 => Ok(Instruction::Read(RegOp::And, Mode::XInd)),
        0x24 => Ok(Instruction::Read(RegOp::Bit, Mode::Zpg)),
        0x25 => Ok(Instruction::Read(RegOp::And, Mode::Zpg)),
        0x26 => Ok(Instruction::Modify(MemOp::Rol, Mode::Zpg)),
        0x28 => Ok(Instruction::Plp),
        0x29 => Ok(Instruction::Immediate(RegOp::And)),
        0x2A => Ok(Instruction::Accumulator(MemOp::Rol)),
        0x2C => Ok(Instruction::Read(RegOp::Bit, Mode::Abs)),
        0x2D => Ok(Instruction::Read(RegOp::And, Mode::Abs)),
        0x2E => Ok(Instruction::Modify(MemOp::Rol, Mode::Abs)),
        0x30 => Ok(Instruction::Branch(Status::N, true)),
        0x31 => Ok(Instruction::Read(RegOp::And, Mode::IndY)),
        0x35 => Ok(Instruction::Read(RegOp::And, Mode::ZpgX)),
        0x36 => Ok(Instruction::Modify(MemOp::Rol, Mode::ZpgX)),
        0x38 => Ok(Instruction::Flag(Status::C, true)),
        0x39 => Ok(Instruction::Read(RegOp::And, Mode::AbsY)),
        0x3D => Ok(Instruction::Read(RegOp::And, Mode::AbsX)),
        0x3E => Ok(Instruction::Modify(MemOp::Rol, Mode::AbsX)),
        0x40 => Err(CPUError::Unimplemented(opcode)),
        0x41 => Ok(Instruction::Read(RegOp::Eor, Mode::XInd)),
        0x45 => Ok(Instruction::Read(RegOp::Eor, Mode::Zpg)),
        0x46 => Ok(Instruction::Modify(MemOp::Lsr, Mode::Zpg)),
        0x48 => Ok(Instruction::Pha),
        0x49 => Ok(Instruction::Immediate(RegOp::Eor)),
        0x4A => Ok(Instruction::Accumulator(MemOp::Lsr)),
        0x4C => Ok(Instruction::JmpAbs),
        0x4D => Ok(Instruction::Read(RegOp::Eor, Mode::Abs)),
        0x4E => Ok(Instruction::Modify(MemOp::Lsr, Mode::Abs)),
        0x50 => Ok(Instruction::Branch(Status::V, false)),
        0x51 => Ok(Instruction::Read(RegOp::Eor, Mode::IndY)),
        0x55 => Ok(Instruction::Read(RegOp::Eor, Mode::ZpgX)),
        0x56 => Ok(Instruction::Modify(MemOp::Lsr, Mode::ZpgX)),
        0x58 => Ok(Instruction::Flag(Status::I, false)),
        0x59 => Ok(Instruction::Read(RegOp::Eor, Mode::AbsY)),
        0x5D => Ok(Instruction::Read(RegOp::Eor, Mode::AbsX)),
        0x5E => Ok(Instruction::Modify(MemOp::Lsr, Mode::AbsX)),
        0x60 => Ok(Instruction::Rts),
        0x61 => Ok(Instruction::Read(RegOp::Adc, Mode::XInd)),
        0x65 => Ok(Instruction::Read(RegOp::Adc, Mode::Zpg)),
        0x66 => Ok(Instruction::Modify(MemOp::Ror, Mode::Zpg)),
        0x68 => Ok(Instruction::Pla),
        0x69 => Ok(Instruction::Immediate(RegOp::Adc)),
        0x6A => Ok(Instruction::Accumulator(MemOp::Ror)),
        0x6C => Ok(Instruction::JmpInd),
        0x6D => Ok(Instruction::Read(RegOp::Adc, Mode::Abs)),
        0x6E => Ok(Instruction::Modify(MemOp::Ror, Mode::Abs)),
        0x70 => Ok(Instruction::Branch(Status::V, true)),
        0x71 => Ok(Instruction::Read(RegOp::Adc, Mode::IndY)),
        0x75 => Ok(Instruction::Read(RegOp::Adc, Mode::ZpgX)),
        0x76 => Ok(Instruction::Modify(MemOp::Ror, Mode::ZpgX)),
        0x78 => Ok(Instruction::Flag(Status::I, true)),
        0x79 => Ok(Instruction::Read(RegOp::Adc, Mode::AbsY)),
        0x7D => Ok(Instruction::Read(RegOp::Adc, Mode::AbsX)),
        0x7E => Ok(Instruction::Modify(MemOp::Ror, Mode::AbsX)),
        0x81 => Ok(Instruction::Write(SetOp::Sta, Mode::XInd)),
        0x84 => Ok(Instruction::Write(SetOp::Sty, Mode::Zpg)),
        0x85 => Ok(Instruction::Write(SetOp::Sta, Mode::Zpg)),
        0x86 => Ok(Instruction::Write(SetOp::Stx, Mode::Zpg)),
        0x88 => Ok(Instruction::Dey),
        0x8A => Ok(Instruction::Txa),
        0x8C => Ok(Instruction::Write(SetOp::Sty, Mode::Abs)),
        0x8D => Ok(Instruction::Write(SetOp::Sta, Mode::Abs)),
        0x8E => Ok(Instruction::Write(SetOp::Stx, Mode::Abs)),
        0x90 => Ok(Instruction::Branch(Status::C, false)),
        0x91 => Ok(Instruction::Write(SetOp::Sta, Mode::IndY)),
        0x94 => Ok(Instruction::Write(SetOp::Sty, Mode::ZpgX)),
        0x95 => Ok(Instruction::Write(SetOp::Sta, Mode::ZpgX)),
        0x96 => Ok(Instruction::Write(SetOp::Stx, Mode::ZpgY)),
        0x98 => Ok(Instruction::Tya),
        0x99 => Ok(Instruction::Write(SetOp::Sta, Mode::AbsY)),
        0x9A => Ok(Instruction::Txs),
        0x9D => Ok(Instruction::Write(SetOp::Sta, Mode::AbsX)),
        0xA0 => Ok(Instruction::Immediate(RegOp::Ldy)),
        0xA1 => Ok(Instruction::Read(RegOp::Lda, Mode::XInd)),
        0xA2 => Ok(Instruction::Immediate(RegOp::Ldx)),
        0xA4 => Ok(Instruction::Read(RegOp::Ldy, Mode::Zpg)),
        0xA5 => Ok(Instruction::Read(RegOp::Lda, Mode::Zpg)),
        0xA6 => Ok(Instruction::Read(RegOp::Ldx, Mode::Zpg)),
        0xA8 => Ok(Instruction::Tay),
        0xA9 => Ok(Instruction::Immediate(RegOp::Lda)),
        0xAA => Ok(Instruction::Tax),
        0xAC => Ok(Instruction::Read(RegOp::Ldy, Mode::Abs)),
        0xAD => Ok(Instruction::Read(RegOp::Lda, Mode::Abs)),
        0xAE => Ok(Instruction::Read(RegOp::Ldx, Mode::Abs)),
        0xB0 => Ok(Instruction::Branch(Status::C, true)),
        0xB1 => Ok(Instruction::Read(RegOp::Lda, Mode::IndY)),
        0xB4 => Ok(Instruction::Read(RegOp::Ldy, Mode::ZpgX)),
        0xB5 => Ok(Instruction::Read(RegOp::Lda, Mode::ZpgX)),
        0xB6 => Ok(Instruction::Read(RegOp::Ldx, Mode::ZpgY)),
        0xB8 => Ok(Instruction::Flag(Status::V, false)),
        0xB9 => Ok(Instruction::Read(RegOp::Lda, Mode::AbsY)),
        0xBA => Ok(Instruction::Tsx),
        0xBC => Ok(Instruction::Read(RegOp::Ldy, Mode::AbsX)),
        0xBD => Ok(Instruction::Read(RegOp::Lda, Mode::AbsX)),
        0xBE => Ok(Instruction::Read(RegOp::Ldx, Mode::AbsY)),
        0xC0 => Ok(Instruction::Immediate(RegOp::Cpy)),
        0xC1 => Ok(Instruction::Read(RegOp::Cmp, Mode::XInd)),
        0xC4 => Ok(Instruction::Read(RegOp::Cpy, Mode::Zpg)),
        0xC5 => Ok(Instruction::Read(RegOp::Cmp, Mode::Zpg)),
        0xC6 => Ok(Instruction::Modify(MemOp::Dec, Mode::Zpg)),
        0xC8 => Ok(Instruction::Iny),
        0xC9 => Ok(Instruction::Immediate(RegOp::Cmp)),
        0xCA => Ok(Instruction::Dex),
        0xCC => Ok(Instruction::Read(RegOp::Cpy, Mode::Abs)),
        0xCD => Ok(Instruction::Read(RegOp::Cmp, Mode::Abs)),
        0xCE => Ok(Instruction::Modify(MemOp::Dec, Mode::Abs)),
        0xD0 => Ok(Instruction::Branch(Status::Z, false)),
        0xD1 => Ok(Instruction::Read(RegOp::Cmp, Mode::IndY)),
        0xD5 => Ok(Instruction::Read(RegOp::Cmp, Mode::ZpgX)),
        0xD6 => Ok(Instruction::Modify(MemOp::Dec, Mode::ZpgX)),
        0xD8 => Ok(Instruction::Flag(Status::D, false)),
        0xD9 => Ok(Instruction::Read(RegOp::Cmp, Mode::AbsY)),
        0xDD => Ok(Instruction::Read(RegOp::Cmp, Mode::AbsX)),
        0xDE => Ok(Instruction::Modify(MemOp::Dec, Mode::AbsX)),
        0xE0 => Ok(Instruction::Immediate(RegOp::Cpx)),
        0xE1 => Ok(Instruction::Read(RegOp::Sbc, Mode::XInd)),
        0xE4 => Ok(Instruction::Read(RegOp::Cpx, Mode::Zpg)),
        0xE5 => Ok(Instruction::Read(RegOp::Sbc, Mode::Zpg)),
        0xE6 => Ok(Instruction::Modify(MemOp::Inc, Mode::Zpg)),
        0xE8 => Ok(Instruction::Inx),
        0xE9 => Ok(Instruction::Immediate(RegOp::Sbc)),
        0xEA => Ok(Instruction::Nop),
        0xEC => Ok(Instruction::Read(RegOp::Cpx, Mode::Abs)),
        0xED => Ok(Instruction::Read(RegOp::Sbc, Mode::Abs)),
        0xEE => Ok(Instruction::Modify(MemOp::Inc, Mode::Abs)),
        0xF0 => Ok(Instruction::Branch(Status::Z, true)),
        0xF1 => Ok(Instruction::Read(RegOp::Sbc, Mode::IndY)),
        0xF5 => Ok(Instruction::Read(RegOp::Sbc, Mode::ZpgX)),
        0xF6 => Ok(Instruction::Modify(MemOp::Inc, Mode::ZpgX)),
        0xF8 => Ok(Instruction::Flag(Status::D, true)),
        0xF9 => Ok(Instruction::Read(RegOp::Sbc, Mode::AbsY)),
        0xFD => Ok(Instruction::Read(RegOp::Sbc, Mode::AbsX)),
        0xFE => Ok(Instruction::Modify(MemOp::Inc, Mode::AbsX)),
        _ => Err(CPUError::IllegalInstruction(opcode)),
    }
}

} // verus!
