//! A cycle-counted interpreter for the Intel 8080 instruction set, together
//! with the memory and port map of the arcade board it drives.
//!
//! Every executable function carries a contract over a mathematical model of
//! the machine, and Verus proves each body against its contract.
//!
//! - [`flags`]: the processor status word.
//! - [`alu`]: arithmetic and logic on bytes, and the flags they leave.
//! - [`isa`]: the instruction table.
//! - [`disasm`]: the text of an instruction.
//! - [`bus`]: what a processor asks of its memory and devices.
//! - [`arcade`], [`shifter`], [`timer`]: the arcade board.
//! - [`diag`]: a flat machine for diagnostic programs.
//! - [`machine`]: the state of a processor and what one instruction makes of
//!   it.
//! - [`cpu`]: the processor.
//! - [`laws`]: what holds over more than one instruction.
//!
//! The processor executes one instruction per call of [`cpu::Cpu::step`] and
//! returns its cost in clock cycles. Whoever drives it feeds that cost to
//! [`arcade::InvBus::step`], and delivers the interrupt that the board then
//! may have pending with [`cpu::Cpu::interrupt`].

pub mod flags;
pub mod alu;
pub mod isa;
pub mod disasm;
pub mod bus;
pub mod shifter;
pub mod timer;
pub mod arcade;
pub mod diag;
pub mod machine;
pub mod cpu;
pub mod laws;
