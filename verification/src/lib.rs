//! A verified core for an 8-bit handheld console: register file, ALU,
//! memory bus, interrupt controller and instruction dispatcher.
//!
//! The modules, leaves first:
//!
//! - `fault`: the conditions that stop the machine.
//! - `bits`: facts about bit operations that the proofs share.
//! - `registers`: the register file and the condition flags.
//! - `alu`: arithmetic, logic, rotates, shifts and decimal adjustment.
//! - `cart`, `ppu`, `io`, `timer`: the devices.
//! - `bus`: the address space and its owners.
//! - `decode`: from opcode bytes to instructions.
//! - `machine`: the state of the machine and its transitions, as
//!   mathematics.
//! - `cpu`: the core that carries the transitions out.
//! - `laws`: what holds of the machine as a whole.
//! - `trace`: the names of the instructions, for a trace of the run.

pub mod alu;
pub mod bits;
pub mod bus;
pub mod cart;
pub mod cpu;
pub mod decode;
pub mod fault;
pub mod io;
pub mod laws;
pub mod machine;
pub mod ppu;
pub mod registers;
pub mod timer;
pub mod trace;
