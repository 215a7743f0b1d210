//! A verified 8-bit CPU emulation core in the 6502 family: a flat 64 KiB
//! memory, a register/flag file, and a fetch-decode-execute step covering
//! the load (LDA/LDX/LDY), jump (JMP absolute/indirect) and increment
//! (INX/INY) instruction families, with cycle-accurate timing.

pub mod cpu;
pub mod instructions;
pub mod laws;
pub mod memory;
pub mod model;
