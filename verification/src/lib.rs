//! Cycle-budgeted core of a DMG hand-held console: the memory bus and its
//! peripherals, the interrupt controller, and the frame pacing state
//! machine, each with a contract over a model in plain values.
//!
//! The processor is not part of the core. The host polls
//! [`emulator::Emulator::run`]; when that returns an order, the host has its
//! processor carry the order out against the bus and reports the machine
//! cycles it took with [`emulator::Emulator::retire`].

pub mod cartridge;
pub mod debug;
pub mod emulator;
pub mod soc;
