//! Opcode bytes of the implemented instruction set.
//!
//! Reference: http://www.6502.org/users/obelisk/6502/index.html

use vstd::prelude::*;

verus! {

pub const LDA_IMM: u8 = 0xA9;

pub const LDA_ZP: u8 = 0xA5;

pub const LDA_ZPX: u8 = 0xB5;

pub const LDA_ABS: u8 = 0xAD;

pub const LDA_ABSX: u8 = 0xBD;

pub const LDA_ABSY: u8 = 0xB9;

pub const LDA_INDX: u8 = 0xA1;

pub const LDA_INDY: u8 = 0xB1;

pub const LDX_IMM: u8 = 0xA2;

pub const LDX_ZP: u8 = 0xA6;

pub const LDX_ZPY: u8 = 0xB6;

pub const LDX_ABS: u8 = 0xAE;

pub const LDX_ABSY: u8 = 0xBE;

pub const LDY_IMM: u8 = 0xA0;

pub const LDY_ZP: u8 = 0xA4;

pub const LDY_ZPX: u8 = 0xB4;

pub const LDY_ABS: u8 = 0xAC;

pub const LDY_ABSX: u8 = 0xBC;

pub const JMP_ABS: u8 = 0x4C;

pub const JMP_IND: u8 = 0x6C;

pub const INX_IMP: u8 = 0xE8;

pub const INY_IMP: u8 = 0xC8;

} // verus!
