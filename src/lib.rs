//! The core of an NES emulator: a 6502 CPU, the memory bus that routes its
//! accesses, the PPU's registers and timing, and the master clock.
pub mod opcodes;
pub mod status;
pub mod rom;
pub mod ppu;
pub mod bus;
pub mod semantics;
pub mod cpu;
pub mod emulator;
pub mod laws;
