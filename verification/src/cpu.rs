//! The CPU register file, status flags, and the fetch-decode-execute step.

use vstd::prelude::*;

use crate::memory::{Memory, MEMORY_SIZE};
use crate::model::{
    crossing_penalty, effective_addr, flags_after_load, flags_cleared, increment_step,
    jmp_abs_step, jmp_ind_step, load_step, spec_decode, spec_step, wrap16, word_at, AddrMode,
    Reg,
};
use crate::instructions;

verus! {

/// The seven independent status flags of the status register.
#[allow(non_snake_case)]
pub struct Flags {
    pub Carry: bool,
    pub Zero: bool,
    pub InterruptDisable: bool,
    pub DecimalMode: bool,
    pub Break: bool,
    pub Overflow: bool,
    pub Negative: bool,
}

/// The CPU register file: program counter, stack pointer, accumulator,
/// the two index registers, and the status flags.
#[allow(non_snake_case)]
pub struct CPU {
    /// Program counter: points at the next byte to fetch.
    pub PC: u16,
    /// Stack pointer into the implied stack page; part of the state but
    /// untouched by the present instruction families.
    pub SP: u8,
    /// Accumulator.
    pub A: u8,
    /// Index register X.
    pub X: u8,
    /// Index register Y.
    pub Y: u8,
    /// Status register.
    pub Status: Flags,
}

/// A fatal condition reported by `execute` instead of a state change.
#[derive(Debug, Clone, Copy, PartialEq, Eq)]
pub enum Fault {
    /// The opcode byte matches no entry of the dispatch table.
    UnknownOpcode(u8),
}

#[allow(non_snake_case)]
impl CPU {
    /// A CPU with every register zeroed and every flag clear.
    pub fn new() -> (c: CPU)
        ensures
            c == (CPU { PC: 0, SP: 0, A: 0, X: 0, Y: 0, Status: flags_cleared() }),
    {
        CPU {
            PC: 0,
            SP: 0,
            A: 0,
            X: 0,
            Y: 0,
            Status: Flags {
                Carry: false,
                Zero: false,
                InterruptDisable: false,
                DecimalMode: false,
                Break: false,
                Overflow: false,
                Negative: false,
            },
        }
    }

    /// Brings the CPU to its power-on state: PC at the reset vector
    /// 0xFFFC, SP at 0xFF, all flags cleared; A, X and Y keep their
    /// values.
    pub fn reset(&mut self)
        ensures
            *final(self) == (CPU {
                PC: 0xFFFC,
                SP: 0xFF,
                Status: flags_cleared(),
                ..*old(self)
            }),
    {
        self.PC = 0xFFFC;
        self.SP = 0xFF;
        self.Status = Flags {
            Carry: false,
            Zero: false,
            InterruptDisable: false,
            DecimalMode: false,
            Break: false,
            Overflow: false,
            Negative: false,
        };
    }

    /// Advances PC by one with 16-bit wraparound.
    fn advance_pc(&mut self)
        ensures
            *final(self) == (CPU { PC: wrap16(old(self).PC + 1) as u16, ..*old(self) }),
    {
        if self.PC == 0xFFFF {
            self.PC = 0;
        } else {
            self.PC = self.PC + 1;
        }
    }

    /// Reads the byte at PC and advances PC by one with wraparound.
    fn fetch_byte(&mut self, mem: &Memory) -> (data: u8)
        ensures
            mem@.len() == MEMORY_SIZE,
            data == mem@[old(self).PC as int],
            *final(self) == (CPU { PC: wrap16(old(self).PC + 1) as u16, ..*old(self) }),
    {
        let data = mem.read(self.PC);
        self.advance_pc();
        data
    }

    /// Reads the byte at `address` without touching any register.
    fn read_byte(&self, mem: &Memory, address: u16) -> (data: u8)
        ensures
            mem@.len() == MEMORY_SIZE,
            data == mem@[address as int],
    {
        mem.read(address)
    }

    /// Reads the 16-bit little-endian word at PC (low byte first) and
    /// advances PC by two; both the reads and the advance wrap around
    /// the end of the address space.
    fn fetch_word(&mut self, mem: &Memory) -> (data: u16)
        ensures
            mem@.len() == MEMORY_SIZE,
            data == word_at(mem@, old(self).PC as int),
            *final(self) == (CPU { PC: wrap16(old(self).PC + 2) as u16, ..*old(self) }),
    {
        let lo = self.fetch_byte(mem);
        let hi = self.fetch_byte(mem);
        (hi as u16) * 0x100 + (lo as u16)
    }

    /// Sets Zero and Negative from the accumulator, as every LDA does.
    fn set_flags_LDA(&mut self)
        ensures
            *final(self) == (CPU {
                Status: flags_after_load(old(self).Status, old(self).A),
                ..*old(self)
            }),
    {
        self.Status.Zero = self.A == 0;
        self.Status.Negative = (self.A & 0x80) > 0;
    }

    /// Sets Zero and Negative from index register X.
    fn set_flags_LDX(&mut self)
        ensures
            *final(self) == (CPU {
                Status: flags_after_load(old(self).Status, old(self).X),
                ..*old(self)
            }),
    {
        self.Status.Zero = self.X == 0;
        self.Status.Negative = (self.X & 0x80) > 0;
    }

    /// Sets Zero and Negative from index register Y.
    fn set_flags_LDY(&mut self)
        ensures
            *final(self) == (CPU {
                Status: flags_after_load(old(self).Status, old(self).Y),
                ..*old(self)
            }),
    {
        self.Status.Zero = self.Y == 0;
        self.Status.Negative = (self.Y & 0x80) > 0;
    }

    /// Zero-page addressing: the operand byte is the address, high byte
    /// zero.
    fn ZP_ADDRESSING(&mut self, mem: &Memory) -> (address: u16)
        ensures
            mem@.len() == MEMORY_SIZE,
            address == effective_addr(
                AddrMode::ZeroPage,
                mem@,
                old(self).PC as int,
                old(self).X,
                old(self).Y,
            ),
            *final(self) == (CPU { PC: wrap16(old(self).PC + 1) as u16, ..*old(self) }),
    {
        let base = self.fetch_byte(mem);
        base as u16
    }

    /// Zero-page,X addressing: the operand byte plus X, wrapped within
    /// the zero page so the sum never carries into the high byte.
    fn ZPX_ADDRESSING(&mut self, mem: &Memory) -> (address: u16)
        ensures
            mem@.len() == MEMORY_SIZE,
            address == effective_addr(
                AddrMode::ZeroPageX,
                mem@,
                old(self).PC as int,
                old(self).X,
                old(self).Y,
            ),
            *final(self) == (CPU { PC: wrap16(old(self).PC + 1) as u16, ..*old(self) }),
    {
        let base = self.fetch_byte(mem);
        (base as u16 + self.X as u16) % 0x100
    }

    /// Zero-page,Y addressing: the operand byte plus Y, wrapped within
    /// the zero page.
    fn ZPY_ADDRESSING(&mut self, mem: &Memory) -> (address: u16)
        ensures
            mem@.len() == MEMORY_SIZE,
            address == effective_addr(
                AddrMode::ZeroPageY,
                mem@,
                old(self).PC as int,
                old(self).X,
                old(self).Y,
            ),
            *final(self) == (CPU { PC: wrap16(old(self).PC + 1) as u16, ..*old(self) }),
    {
        let base = self.fetch_byte(mem);
        (base as u16 + self.Y as u16) % 0x100
    }

    /// Absolute addressing: the 16-bit little-endian operand is the
    /// address.
    fn ABS_ADDRESSING(&mut self, mem: &Memory) -> (address: u16)
        ensures
            mem@.len() == MEMORY_SIZE,
            address == effective_addr(
                AddrMode::Absolute,
                mem@,
                old(self).PC as int,
                old(self).X,
                old(self).Y,
            ),
            *final(self) == (CPU { PC: wrap16(old(self).PC + 2) as u16, ..*old(self) }),
    {
        self.fetch_word(mem)
    }

    /// Absolute,X addressing: the 16-bit operand plus X, wrapped within
    /// the 16-bit space; also reports whether the addition crossed a
    /// page, which costs one extra cycle.
    fn ABSX_ADDRESSING(&mut self, mem: &Memory) -> (r: (u16, bool))
        ensures
            mem@.len() == MEMORY_SIZE,
            r.0 == effective_addr(
                AddrMode::AbsoluteX,
                mem@,
                old(self).PC as int,
                old(self).X,
                old(self).Y,
            ),
            r.1 == crossing_penalty(
                AddrMode::AbsoluteX,
                mem@,
                old(self).PC as int,
                old(self).X,
                old(self).Y,
            ),
            *final(self) == (CPU { PC: wrap16(old(self).PC + 2) as u16, ..*old(self) }),
    {
        let base = self.fetch_word(mem);
        let address = ((base as u32 + self.X as u32) % 0x10000) as u16;
        (address, address / 0x100 != base / 0x100)
    }

    /// Absolute,Y addressing: the 16-bit operand plus Y, with the same
    /// wraparound and page-crossing report as Absolute,X.
    fn ABSY_ADDRESSING(&mut self, mem: &Memory) -> (r: (u16, bool))
        ensures
            mem@.len() == MEMORY_SIZE,
            r.0 == effective_addr(
                AddrMode::AbsoluteY,
                mem@,
                old(self).PC as int,
                old(self).X,
                old(self).Y,
            ),
            r.1 == crossing_penalty(
                AddrMode::AbsoluteY,
                mem@,
                old(self).PC as int,
                old(self).X,
                old(self).Y,
            ),
            *final(self) == (CPU { PC: wrap16(old(self).PC + 2) as u16, ..*old(self) }),
    {
        let base = self.fetch_word(mem);
        let address = ((base as u32 + self.Y as u32) % 0x10000) as u16;
        (address, address / 0x100 != base / 0x100)
    }

    /// (Indirect,X) addressing: the operand byte plus X, wrapped within
    /// the zero page, locates a 16-bit little-endian pointer; that
    /// pointer is the effective address.
    fn INDX_ADDRESSING(&mut self, mem: &Memory) -> (address: u16)
        ensures
            mem@.len() == MEMORY_SIZE,
            address == effective_addr(
                AddrMode::IndirectX,
                mem@,
                old(self).PC as int,
                old(self).X,
                old(self).Y,
            ),
            *final(self) == (CPU { PC: wrap16(old(self).PC + 1) as u16, ..*old(self) }),
    {
        let base = self.fetch_byte(mem);
        let zp = (base as u16 + self.X as u16) % 0x100;
        let lo = self.read_byte(mem, zp);
        let hi = self.read_byte(mem, zp + 1);
        (hi as u16) * 0x100 + (lo as u16)
    }

    /// (Indirect),Y addressing: the operand byte locates a 16-bit
    /// little-endian pointer; Y is added to that pointer, wrapping
    /// within the 16-bit space; also reports whether the addition
    /// crossed a page.
    fn INDY_ADDRESSING(&mut self, mem: &Memory) -> (r: (u16, bool))
        ensures
            mem@.len() == MEMORY_SIZE,
            r.0 == effective_addr(
                AddrMode::IndirectY,
                mem@,
                old(self).PC as int,
                old(self).X,
                old(self).Y,
            ),
            r.1 == crossing_penalty(
                AddrMode::IndirectY,
                mem@,
                old(self).PC as int,
                old(self).X,
                old(self).Y,
            ),
            *final(self) == (CPU { PC: wrap16(old(self).PC + 1) as u16, ..*old(self) }),
    {
        let zp = self.fetch_byte(mem) as u16;
        let lo = self.read_byte(mem, zp);
        let hi = self.read_byte(mem, zp + 1);
        let base = (hi as u16) * 0x100 + (lo as u16);
        let address = ((base as u32 + self.Y as u32) % 0x10000) as u16;
        (address, address / 0x100 != base / 0x100)
    }

    /// LDA immediate: A := the next instruction byte; 2 cycles.
    fn handle_LDA_IMM(&mut self, mem: &Memory) -> (cycles: u8)
        ensures
            (*final(self), cycles) == load_step(*old(self), mem@, Reg::A, AddrMode::Immediate),
    {
        self.advance_pc();
        let value = self.fetch_byte(mem);
        self.A = value;
        self.set_flags_LDA();
        2
    }

    /// LDA zero-page; 3 cycles.
    fn handle_LDA_ZP(&mut self, mem: &Memory) -> (cycles: u8)
        ensures
            (*final(self), cycles) == load_step(*old(self), mem@, Reg::A, AddrMode::ZeroPage),
    {
        self.advance_pc();
        let address = self.ZP_ADDRESSING(mem);
        let value = self.read_byte(mem, address);
        self.A = value;
        self.set_flags_LDA();
        3
    }

    /// LDA zero-page,X; 4 cycles. The index offsets the address, never
    /// the loaded byte.
    fn handle_LDA_ZPX(&mut self, mem: &Memory) -> (cycles: u8)
        ensures
            (*final(self), cycles) == load_step(*old(self), mem@, Reg::A, AddrMode::ZeroPageX),
    {
        self.advance_pc();
        let address = self.ZPX_ADDRESSING(mem);
        let value = self.read_byte(mem, address);
        self.A = value;
        self.set_flags_LDA();
        4
    }

    /// LDA absolute; 4 cycles.
    fn handle_LDA_ABS(&mut self, mem: &Memory) -> (cycles: u8)
        ensures
            (*final(self), cycles) == load_step(*old(self), mem@, Reg::A, AddrMode::Absolute),
    {
        self.advance_pc();
        let address = self.ABS_ADDRESSING(mem);
        let value = self.read_byte(mem, address);
        self.A = value;
        self.set_flags_LDA();
        4
    }

    /// LDA absolute,X; 4 cycles, plus one if the indexing crossed a
    /// page.
    fn handle_LDA_ABSX(&mut self, mem: &Memory) -> (cycles: u8)
        ensures
            (*final(self), cycles) == load_step(*old(self), mem@, Reg::A, AddrMode::AbsoluteX),
    {
        self.advance_pc();
        let (address, crossed) = self.ABSX_ADDRESSING(mem);
        let value = self.read_byte(mem, address);
        self.A = value;
        self.set_flags_LDA();
        if crossed {
            5
        } else {
            4
        }
    }

    /// LDA absolute,Y; 4 cycles, plus one if the indexing crossed a
    /// page.
    fn handle_LDA_ABSY(&mut self, mem: &Memory) -> (cycles: u8)
        ensures
            (*final(self), cycles) == load_step(*old(self), mem@, Reg::A, AddrMode::AbsoluteY),
    {
        self.advance_pc();
        let (address, crossed) = self.ABSY_ADDRESSING(mem);
        let value = self.read_byte(mem, address);
        self.A = value;
        self.set_flags_LDA();
        if crossed {
            5
        } else {
            4
        }
    }

    /// LDA (indirect,X); 6 cycles.
    fn handle_LDA_INDX(&mut self, mem: &Memory) -> (cycles: u8)
        ensures
            (*final(self), cycles) == load_step(*old(self), mem@, Reg::A, AddrMode::IndirectX),
    {
        self.advance_pc();
        let address = self.INDX_ADDRESSING(mem);
        let value = self.read_byte(mem, address);
        self.A = value;
        self.set_flags_LDA();
        6
    }

    /// LDA (indirect),Y; 5 cycles, plus one if adding Y to the pointer
    /// crossed a page.
    fn handle_LDA_INDY(&mut self, mem: &Memory) -> (cycles: u8)
        ensures
            (*final(self), cycles) == load_step(*old(self), mem@, Reg::A, AddrMode::IndirectY),
    {
        self.advance_pc();
        let (address, crossed) = self.INDY_ADDRESSING(mem);
        let value = self.read_byte(mem, address);
        self.A = value;
        self.set_flags_LDA();
        if crossed {
            6
        } else {
            5
        }
    }

    /// LDX immediate; 2 cycles.
    fn handle_LDX_IMM(&mut self, mem: &Memory) -> (cycles: u8)
        ensures
            (*final(self), cycles) == load_step(*old(self), mem@, Reg::X, AddrMode::Immediate),
    {
        self.advance_pc();
        let value = self.fetch_byte(mem);
        self.X = value;
        self.set_flags_LDX();
        2
    }

    /// LDX zero-page; 3 cycles.
    fn handle_LDX_ZP(&mut self, mem: &Memory) -> (cycles: u8)
        ensures
            (*final(self), cycles) == load_step(*old(self), mem@, Reg::X, AddrMode::ZeroPage),
    {
        self.advance_pc();
        let address = self.ZP_ADDRESSING(mem);
        let value = self.read_byte(mem, address);
        self.X = value;
        self.set_flags_LDX();
        3
    }

    /// LDX zero-page,Y; 4 cycles. The index offsets the address, never
    /// the loaded byte.
    fn handle_LDX_ZPY(&mut self, mem: &Memory) -> (cycles: u8)
        ensures
            (*final(self), cycles) == load_step(*old(self), mem@, Reg::X, AddrMode::ZeroPageY),
    {
        self.advance_pc();
        let address = self.ZPY_ADDRESSING(mem);
        let value = self.read_byte(mem, address);
        self.X = value;
        self.set_flags_LDX();
        4
    }

    /// LDX absolute; 4 cycles.
    fn handle_LDX_ABS(&mut self, mem: &Memory) -> (cycles: u8)
        ensures
            (*final(self), cycles) == load_step(*old(self), mem@, Reg::X, AddrMode::Absolute),
    {
        self.advance_pc();
        let address = self.ABS_ADDRESSING(mem);
        let value = self.read_byte(mem, address);
        self.X = value;
        self.set_flags_LDX();
        4
    }

    /// LDX absolute,Y; 4 cycles, plus one if the indexing crossed a
    /// page.
    fn handle_LDX_ABSY(&mut self, mem: &Memory) -> (cycles: u8)
        ensures
            (*final(self), cycles) == load_step(*old(self), mem@, Reg::X, AddrMode::AbsoluteY),
    {
        self.advance_pc();
        let (address, crossed) = self.ABSY_ADDRESSING(mem);
        let value = self.read_byte(mem, address);
        self.X = value;
        self.set_flags_LDX();
        if crossed {
            5
        } else {
            4
        }
    }

    /// LDY immediate; 2 cycles.
    fn handle_LDY_IMM(&mut self, mem: &Memory) -> (cycles: u8)
        ensures
            (*final(self), cycles) == load_step(*old(self), mem@, Reg::Y, AddrMode::Immediate),
    {
        self.advance_pc();
        let value = self.fetch_byte(mem);
        self.Y = value;
        self.set_flags_LDY();
        2
    }

    /// LDY zero-page; 3 cycles.
    fn handle_LDY_ZP(&mut self, mem: &Memory) -> (cycles: u8)
        ensures
            (*final(self), cycles) == load_step(*old(self), mem@, Reg::Y, AddrMode::ZeroPage),
    {
        self.advance_pc();
        let address = self.ZP_ADDRESSING(mem);
        let value = self.read_byte(mem, address);
        self.Y = value;
        self.set_flags_LDY();
        3
    }

    /// LDY zero-page,X; 4 cycles. The index offsets the address, never
    /// the loaded byte.
    fn handle_LDY_ZPX(&mut self, mem: &Memory) -> (cycles: u8)
        ensures
            (*final(self), cycles) == load_step(*old(self), mem@, Reg::Y, AddrMode::ZeroPageX),
    {
        self.advance_pc();
        let address = self.ZPX_ADDRESSING(mem);
        let value = self.read_byte(mem, address);
        self.Y = value;
        self.set_flags_LDY();
        4
    }

    /// LDY absolute; 4 cycles.
    fn handle_LDY_ABS(&mut self, mem: &Memory) -> (cycles: u8)
        ensures
            (*final(self), cycles) == load_step(*old(self), mem@, Reg::Y, AddrMode::Absolute),
    {
        self.advance_pc();
        let address = self.ABS_ADDRESSING(mem);
        let value = self.read_byte(mem, address);
        self.Y = value;
        self.set_flags_LDY();
        4
    }

    /// LDY absolute,X; 4 cycles, plus one if the indexing crossed a
    /// page.
    fn handle_LDY_ABSX(&mut self, mem: &Memory) -> (cycles: u8)
        ensures
            (*final(self), cycles) == load_step(*old(self), mem@, Reg::Y, AddrMode::AbsoluteX),
    {
        self.advance_pc();
        let (address, crossed) = self.ABSX_ADDRESSING(mem);
        let value = self.read_byte(mem, address);
        self.Y = value;
        self.set_flags_LDY();
        if crossed {
            5
        } else {
            4
        }
    }

    /// JMP absolute: PC := the 16-bit little-endian operand; 3 cycles.
    fn handle_JMP_ABS(&mut self, mem: &Memory) -> (cycles: u8)
        ensures
            (*final(self), cycles) == jmp_abs_step(*old(self), mem@),
    {
        self.advance_pc();
        let address = self.fetch_word(mem);
        self.PC = address;
        3
    }

    /// JMP indirect: the operand word locates a pointer, and PC becomes
    /// the word stored there; 5 cycles. Reproduces the hardware quirk:
    /// when the pointer's low byte is 0xFF, the target's high byte is
    /// read from the start of the same page, not from the next page.
    fn handle_JMP_IND(&mut self, mem: &Memory) -> (cycles: u8)
        ensures
            (*final(self), cycles) == jmp_ind_step(*old(self), mem@),
    {
        self.advance_pc();
        let ptr = self.fetch_word(mem);
        let lo = self.read_byte(mem, ptr);
        let hi_address = if ptr % 0x100 == 0xFF {
            ptr - 0xFF
        } else {
            ptr + 1
        };
        let hi = self.read_byte(mem, hi_address);
        self.PC = (hi as u16) * 0x100 + (lo as u16);
        5
    }

    /// INX: X := X + 1 with 8-bit wraparound, setting Zero and Negative
    /// from the new value; 2 cycles.
    fn handle_INX_IMP(&mut self) -> (cycles: u8)
        ensures
            (*final(self), cycles) == increment_step(*old(self), Reg::X),
    {
        self.advance_pc();
        self.X = ((self.X as u16 + 1) % 0x100) as u8;
        self.set_flags_LDX();
        2
    }

    /// INY: Y := Y + 1 with 8-bit wraparound, setting Zero and Negative
    /// from the new value; 2 cycles.
    fn handle_INY_IMP(&mut self) -> (cycles: u8)
        ensures
            (*final(self), cycles) == increment_step(*old(self), Reg::Y),
    {
        self.advance_pc();
        self.Y = ((self.Y as u16 + 1) % 0x100) as u8;
        self.set_flags_LDY();
        2
    }

    /// Executes exactly one instruction: fetches the opcode byte at PC,
    /// dispatches to the matching handler, and reports the cycles the
    /// instruction consumed. An opcode absent from the dispatch table is
    /// a fatal decode fault, reported as an explicit error with the CPU
    /// and memory left exactly as they were. The present instruction
    /// families never write memory.
    pub fn execute(&mut self, mem: &mut Memory) -> (r: Result<u8, Fault>)
        ensures
            final(mem)@ == old(mem)@,
            spec_decode(old(mem)@[old(self).PC as int]) is Some ==> r == Ok::<u8, Fault>(
                spec_step(*old(self), old(mem)@).1,
            ) && *final(self) == spec_step(*old(self), old(mem)@).0,
            spec_decode(old(mem)@[old(self).PC as int]) is None ==> r == Err::<u8, Fault>(
                Fault::UnknownOpcode(old(mem)@[old(self).PC as int]),
            ) && *final(self) == *old(self),
    {
        let opcode = self.read_byte(mem, self.PC);
        if opcode == instructions::LDA_IMM {
            Ok(self.handle_LDA_IMM(mem))
        } else if opcode == instructions::LDA_ZP {
            Ok(self.handle_LDA_ZP(mem))
        } else if opcode == instructions::LDA_ZPX {
            Ok(self.handle_LDA_ZPX(mem))
        } else if opcode == instructions::LDA_ABS {
            Ok(self.handle_LDA_ABS(mem))
        } else if opcode == instructions::LDA_ABSX {
            Ok(self.handle_LDA_ABSX(mem))
        } else if opcode == instructions::LDA_ABSY {
            Ok(self.handle_LDA_ABSY(mem))
        } else if opcode == instructions::LDA_INDX {
            Ok(self.handle_LDA_INDX(mem))
        } else if opcode == instructions::LDA_INDY {
            Ok(self.handle_LDA_INDY(mem))
        } else if opcode == instructions::LDX_IMM {
            Ok(self.handle_LDX_IMM(mem))
        } else if opcode == instructions::LDX_ZP {
            Ok(self.handle_LDX_ZP(mem))
        } else if opcode == instructions::LDX_ZPY {
            Ok(self.handle_LDX_ZPY(mem))
        } else if opcode == instructions::LDX_ABS {
            Ok(self.handle_LDX_ABS(mem))
        } else if opcode == instructions::LDX_ABSY {
            Ok(self.handle_LDX_ABSY(mem))
        } else if opcode == instructions::LDY_IMM {
            Ok(self.handle_LDY_IMM(mem))
        } else if opcode == instructions::LDY_ZP {
            Ok(self.handle_LDY_ZP(mem))
        } else if opcode == instructions::LDY_ZPX {
            Ok(self.handle_LDY_ZPX(mem))
        } else if opcode == instructions::LDY_ABS {
            Ok(self.handle_LDY_ABS(mem))
        } else if opcode == instructions::LDY_ABSX {
            Ok(self.handle_LDY_ABSX(mem))
        } else if opcode == instructions::JMP_ABS {
            Ok(self.handle_JMP_ABS(mem))
        } else if opcode == instructions::JMP_IND {
            Ok(self.handle_JMP_IND(mem))
        } else if opcode == instructions::INX_IMP {
            Ok(self.handle_INX_IMP())
        } else if opcode == instructions::INY_IMP {
            Ok(self.handle_INY_IMP())
        } else {
            Err(Fault::UnknownOpcode(opcode))
        }
    }
}

} // verus!
