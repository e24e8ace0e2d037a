//! A MOS 6502 processor core over a 2 KiB memory image, with every
//! instruction's effect on registers, flags and memory stated as a contract
//! over a mathematical model of the machine.

pub mod cpu;
pub mod cycle;
pub mod instruction;
pub mod laws;
pub mod machine;
pub mod ops;
pub mod semantics;
pub mod status;

pub use cpu::CPU;
pub use instruction::{decode, CPUError, Instruction, Step};
pub use machine::{Machine, Mode};
pub use ops::{MemOp, RegOp, SetOp};
pub use status::{Status, StatusWord};
