use mos6502::cpu::CPU;
use mos6502::instructions;
use mos6502::memory::Memory;

#[allow(non_snake_case)]
#[test]
fn LDA_ZPX_CAN_LOAD_AND_OFFSET() {
    let mut mem = Memory::new();
    let mut cpu = CPU::new();
    cpu.reset();

    mem.write(0xFFFC, instructions::LDA_ZPX);
    mem.write(0xFFFD, 0x10);
    mem.write(0x0010, 0x11);
    cpu.X = 0x5;

    let r = cpu.execute(&mut mem);
    assert!(r.is_ok());

    // X offsets the address within the zero page: the byte is read from
    // 0x0015, which holds zero, and is stored unmodified.
    assert_eq!(cpu.A, 0x00);

    // Flags
    assert_eq!(cpu.Status.Zero, true);
    assert_eq!(cpu.Status.Negative, false);
    assert_eq!(cpu.Status.Overflow, false);
    assert_eq!(cpu.Status.Carry, false);
    assert_eq!(cpu.Status.DecimalMode, false);
    assert_eq!(cpu.Status.InterruptDisable, false);
    assert_eq!(cpu.Status.Break, false);
}

#[allow(non_snake_case)]
#[test]
fn LDA_ZP_CAN_LOAD() {
    let mut mem = Memory::new();
    let mut cpu = CPU::new();
    cpu.reset();

    mem.write(0xFFFC, instructions::LDA_ZP);
    mem.write(0xFFFD, 0x10);
    mem.write(0x0010, 0x11);

    let r = cpu.execute(&mut mem);
    assert!(r.is_ok());

    assert_eq!(cpu.A, 0x11);

    // Flags
    assert_eq!(cpu.Status.Zero, false);
    assert_eq!(cpu.Status.Negative, false);
    assert_eq!(cpu.Status.Overflow, false);
    assert_eq!(cpu.Status.Carry, false);
    assert_eq!(cpu.Status.DecimalMode, false);
    assert_eq!(cpu.Status.InterruptDisable, false);
    assert_eq!(cpu.Status.Break, false);
}

#[allow(non_snake_case)]
#[test]
fn LDA_IMM_CAN_LOAD() {
    let mut mem = Memory::new();
    let mut cpu = CPU::new();
    cpu.reset();

    mem.write(0xFFFC, instructions::LDA_IMM);
    mem.write(0xFFFD, 0x10);

    let r = cpu.execute(&mut mem);
    assert!(r.is_ok());

    assert_eq!(cpu.A, 0x10);

    // Flags
    assert_eq!(cpu.Status.Zero, false);
    assert_eq!(cpu.Status.Negative, false);
    assert_eq!(cpu.Status.Overflow, false);
    assert_eq!(cpu.Status.Carry, false);
    assert_eq!(cpu.Status.DecimalMode, false);
    assert_eq!(cpu.Status.InterruptDisable, false);
    assert_eq!(cpu.Status.Break, false);
}

#[allow(non_snake_case)]
#[test]
fn LDA_FLAG_NEGATIVE() {
    let mut mem = Memory::new();
    let mut cpu = CPU::new();
    cpu.reset();

    mem.write(0xFFFC, instructions::LDA_IMM);
    mem.write(0xFFFD, 0x80);

    let r = cpu.execute(&mut mem);
    assert!(r.is_ok());

    assert_eq!(cpu.A, 0x80);

    // Flags
    assert_eq!(cpu.Status.Negative, true);
    assert_eq!(cpu.Status.Zero, false);
    assert_eq!(cpu.Status.Overflow, false);
    assert_eq!(cpu.Status.Carry, false);
    assert_eq!(cpu.Status.DecimalMode, false);
    assert_eq!(cpu.Status.InterruptDisable, false);
    assert_eq!(cpu.Status.Break, false);
}

#[allow(non_snake_case)]
#[test]
fn LDA_FLAG_ZERO() {
    let mut mem = Memory::new();
    let mut cpu = CPU::new();
    cpu.reset();

    mem.write(0xFFFC, instructions::LDA_IMM);
    mem.write(0xFFFD, 0x00);

    let r = cpu.execute(&mut mem);
    assert!(r.is_ok());

    assert_eq!(cpu.A, 0x00);

    // Flags
    assert_eq!(cpu.Status.Zero, true);
    assert_eq!(cpu.Status.Negative, false);
    assert_eq!(cpu.Status.Overflow, false);
    assert_eq!(cpu.Status.Carry, false);
    assert_eq!(cpu.Status.DecimalMode, false);
    assert_eq!(cpu.Status.InterruptDisable, false);
    assert_eq!(cpu.Status.Break, false);
}

#[allow(non_snake_case)]
#[test]
fn LDA_ABS_CAN_LOAD() {
    let mut mem = Memory::new();
    let mut cpu = CPU::new();
    cpu.reset();

    mem.write(0xFFFC, instructions::LDA_ABS);
    mem.write(0xFFFD, 0x80);
    mem.write(0xFFFE, 0x80);
    mem.write(0x8080, 0x15);

    let r = cpu.execute(&mut mem);
    assert!(r.is_ok());

    assert_eq!(cpu.A, 0x15);

    // Flags
    assert_eq!(cpu.Status.Negative, false);
    assert_eq!(cpu.Status.Zero, false);
    assert_eq!(cpu.Status.Overflow, false);
    assert_eq!(cpu.Status.Carry, false);
    assert_eq!(cpu.Status.DecimalMode, false);
    assert_eq!(cpu.Status.InterruptDisable, false);
    assert_eq!(cpu.Status.Break, false);
}

#[allow(non_snake_case)]
#[test]
fn LDA_ABSX_CAN_LOAD() {
    let mut mem = Memory::new();
    let mut cpu = CPU::new();
    cpu.reset();

    mem.write(0xFFFC, instructions::LDA_ABSX);
    mem.write(0xFFFD, 0x80);
    mem.write(0xFFFE, 0x80);
    mem.write(0x8081, 0x15);
    cpu.X = 0x01;

    let r = cpu.execute(&mut mem);
    assert!(r.is_ok());

    assert_eq!(cpu.A, 0x15);

    // Flags
    assert_eq!(cpu.Status.Negative, false);
    assert_eq!(cpu.Status.Zero, false);
    assert_eq!(cpu.Status.Overflow, false);
    assert_eq!(cpu.Status.Carry, false);
    assert_eq!(cpu.Status.DecimalMode, false);
    assert_eq!(cpu.Status.InterruptDisable, false);
    assert_eq!(cpu.Status.Break, false);
}

#[allow(non_snake_case)]
#[test]
fn LDA_ABSY_CAN_LOAD() {
    let mut mem = Memory::new();
    let mut cpu = CPU::new();
    cpu.reset();

    mem.write(0xFFFC, instructions::LDA_ABSY);
    mem.write(0xFFFD, 0x81);
    mem.write(0xFFFE, 0x81);
    mem.write(0x8183, 0x0B);
    cpu.Y = 0x02;

    let r = cpu.execute(&mut mem);
    assert!(r.is_ok());

    assert_eq!(cpu.A, 0x0B);

    // Flags
    assert_eq!(cpu.Status.Negative, false);
    assert_eq!(cpu.Status.Zero, false);
    assert_eq!(cpu.Status.Overflow, false);
    assert_eq!(cpu.Status.Carry, false);
    assert_eq!(cpu.Status.DecimalMode, false);
    assert_eq!(cpu.Status.InterruptDisable, false);
    assert_eq!(cpu.Status.Break, false);
}

#[allow(non_snake_case)]
#[test]
fn LDA_INDX_CAN_LOAD() {
    let mut mem = Memory::new();
    let mut cpu = CPU::new();
    cpu.reset();

    mem.write(0xFFFC, instructions::LDA_INDX);
    mem.write(0xFFFD, 0x1E);
    mem.write(0x0020, 0x05);
    mem.write(0x0021, 0x10);
    mem.write(0x1005, 0x0F);
    cpu.X = 0x02;

    let r = cpu.execute(&mut mem);
    assert!(r.is_ok());

    assert_eq!(cpu.A, 0x0F);

    // Flags
    assert_eq!(cpu.Status.Negative, false);
    assert_eq!(cpu.Status.Zero, false);
    assert_eq!(cpu.Status.Overflow, false);
    assert_eq!(cpu.Status.Carry, false);
    assert_eq!(cpu.Status.DecimalMode, false);
    assert_eq!(cpu.Status.InterruptDisable, false);
    assert_eq!(cpu.Status.Break, false);
}

#[allow(non_snake_case)]
#[test]
fn LDA_INDY_CAN_LOAD() {
    let mut mem = Memory::new();
    let mut cpu = CPU::new();
    cpu.reset();

    mem.write(0xFFFC, instructions::LDA_INDY);
    mem.write(0xFFFD, 0x20);
    mem.write(0x0020, 0x30);
    mem.write(0x0021, 0x40);
    mem.write(0x4035, 0x22);
    cpu.Y = 0x05;

    let r = cpu.execute(&mut mem);
    assert!(r.is_ok());

    assert_eq!(cpu.A, 0x22);

    // Flags
    assert_eq!(cpu.Status.Negative, false);
    assert_eq!(cpu.Status.Zero, false);
    assert_eq!(cpu.Status.Overflow, false);
    assert_eq!(cpu.Status.Carry, false);
    assert_eq!(cpu.Status.DecimalMode, false);
    assert_eq!(cpu.Status.InterruptDisable, false);
    assert_eq!(cpu.Status.Break, false);
}

#[allow(non_snake_case)]
#[test]
fn LDA_INDY_CROSSED_PAGE() {
    let mut mem = Memory::new();
    let mut cpu = CPU::new();
    cpu.reset();

    mem.write(0xFFFC, instructions::LDA_INDY);
    mem.write(0xFFFD, 0x20);
    mem.write(0x0020, 0xFF);
    mem.write(0x0021, 0x30);
    mem.write(0x3101, 0x80);
    cpu.Y = 0x02;

    let r = cpu.execute(&mut mem);
    assert!(r.is_ok());

    assert_eq!(cpu.A, 0x80);

    // Flags
    assert_eq!(cpu.Status.Negative, true);
    assert_eq!(cpu.Status.Zero, false);
    assert_eq!(cpu.Status.Overflow, false);
    assert_eq!(cpu.Status.Carry, false);
    assert_eq!(cpu.Status.DecimalMode, false);
    assert_eq!(cpu.Status.InterruptDisable, false);
    assert_eq!(cpu.Status.Break, false);
}

// LDX
#[allow(non_snake_case)]
#[test]
fn LDX_ZPY_CAN_LOAD_AND_OFFSET() {
    let mut mem = Memory::new();
    let mut cpu = CPU::new();
    cpu.reset();

    mem.write(0xFFFC, instructions::LDX_ZPY);
    mem.write(0xFFFD, 0x10);
    mem.write(0x0010, 0x11);
    cpu.Y = 0x5;

    let r = cpu.execute(&mut mem);
    assert!(r.is_ok());

    // Y offsets the address within the zero page: the byte is read from
    // 0x0015, which holds zero, and is stored unmodified.
    assert_eq!(cpu.X, 0x00);

    // Flags
    assert_eq!(cpu.Status.Zero, true);
    assert_eq!(cpu.Status.Negative, false);
    assert_eq!(cpu.Status.Overflow, false);
    assert_eq!(cpu.Status.Carry, false);
    assert_eq!(cpu.Status.DecimalMode, false);
    assert_eq!(cpu.Status.InterruptDisable, false);
    assert_eq!(cpu.Status.Break, false);
}

#[allow(non_snake_case)]
#[test]
fn LDX_ZP_CAN_LOAD() {
    let mut mem = Memory::new();
    let mut cpu = CPU::new();
    cpu.reset();

    mem.write(0xFFFC, instructions::LDX_ZP);
    mem.write(0xFFFD, 0x10);
    mem.write(0x0010, 0x11);

    let r = cpu.execute(&mut mem);
    assert!(r.is_ok());

    assert_eq!(cpu.X, 0x11);

    // Flags
    assert_eq!(cpu.Status.Zero, false);
    assert_eq!(cpu.Status.Negative, false);
    assert_eq!(cpu.Status.Overflow, false);
    assert_eq!(cpu.Status.Carry, false);
    assert_eq!(cpu.Status.DecimalMode, false);
    assert_eq!(cpu.Status.InterruptDisable, false);
    assert_eq!(cpu.Status.Break, false);
}

#[allow(non_snake_case)]
#[test]
fn LDX_IMM_CAN_LOAD() {
    let mut mem = Memory::new();
    let mut cpu = CPU::new();
    cpu.reset();

    mem.write(0xFFFC, instructions::LDX_IMM);
    mem.write(0xFFFD, 0x10);

    let r = cpu.execute(&mut mem);
    assert!(r.is_ok());

    assert_eq!(cpu.X, 0x10);

    // Flags
    assert_eq!(cpu.Status.Zero, false);
    assert_eq!(cpu.Status.Negative, false);
    assert_eq!(cpu.Status.Overflow, false);
    assert_eq!(cpu.Status.Carry, false);
    assert_eq!(cpu.Status.DecimalMode, false);
    assert_eq!(cpu.Status.InterruptDisable, false);
    assert_eq!(cpu.Status.Break, false);
}

// LDY
#[allow(non_snake_case)]
#[test]
fn LDY_ZPX_CAN_LOAD_AND_OFFSET() {
    let mut mem = Memory::new();
    let mut cpu = CPU::new();
    cpu.reset();

    mem.write(0xFFFC, instructions::LDY_ZPX);
    mem.write(0xFFFD, 0x10);
    mem.write(0x0010, 0x11);
    cpu.X = 0x5;

    let r = cpu.execute(&mut mem);
    assert!(r.is_ok());

    // X offsets the address within the zero page: the byte is read from
    // 0x0015, which holds zero, and is stored unmodified.
    assert_eq!(cpu.Y, 0x00);

    // Flags
    assert_eq!(cpu.Status.Zero, true);
    assert_eq!(cpu.Status.Negative, false);
    assert_eq!(cpu.Status.Overflow, false);
    assert_eq!(cpu.Status.Carry, false);
    assert_eq!(cpu.Status.DecimalMode, false);
    assert_eq!(cpu.Status.InterruptDisable, false);
    assert_eq!(cpu.Status.Break, false);
}

#[allow(non_snake_case)]
#[test]
fn LDY_ZP_CAN_LOAD() {
    let mut mem = Memory::new();
    let mut cpu = CPU::new();
    cpu.reset();

    mem.write(0xFFFC, instructions::LDY_ZP);
    mem.write(0xFFFD, 0x10);
    mem.write(0x0010, 0x11);

    let r = cpu.execute(&mut mem);
    assert!(r.is_ok());

    assert_eq!(cpu.Y, 0x11);

    // Flags
    assert_eq!(cpu.Status.Zero, false);
    assert_eq!(cpu.Status.Negative, false);
    assert_eq!(cpu.Status.Overflow, false);
    assert_eq!(cpu.Status.Carry, false);
    assert_eq!(cpu.Status.DecimalMode, false);
    assert_eq!(cpu.Status.InterruptDisable, false);
    assert_eq!(cpu.Status.Break, false);
}

#[allow(non_snake_case)]
#[test]
fn LDY_ABS_CAN_LOAD() {
    let mut mem = Memory::new();
    let mut cpu = CPU::new();
    cpu.reset();

    mem.write(0xFFFC, instructions::LDY_ABS);
    mem.write(0xFFFD, 0x80);
    mem.write(0xFFFE, 0x80);
    mem.write(0x8080, 0x15);

    let r = cpu.execute(&mut mem);
    assert!(r.is_ok());

    assert_eq!(cpu.Y, 0x15);

    // Flags
    assert_eq!(cpu.Status.Negative, false);
    assert_eq!(cpu.Status.Zero, false);
    assert_eq!(cpu.Status.Overflow, false);
    assert_eq!(cpu.Status.Carry, false);
    assert_eq!(cpu.Status.DecimalMode, false);
    assert_eq!(cpu.Status.InterruptDisable, false);
    assert_eq!(cpu.Status.Break, false);
}

// JMP

#[allow(non_snake_case)]
#[test]
fn JMP_ABS_CAN_JUMP() {
    let mut mem = Memory::new();
    let mut cpu = CPU::new();
    cpu.reset();

    mem.write(0xFFFC, instructions::JMP_ABS);
    mem.write(0xFFFD, 0x80);
    mem.write(0xFFFE, 0x80);

    let r = cpu.execute(&mut mem);
    assert!(r.is_ok());

    assert_eq!(cpu.PC, 0x8080);
}

#[allow(non_snake_case)]
#[test]
fn JMP_IND_CAN_JUMP() {
    let mut mem = Memory::new();
    let mut cpu = CPU::new();
    cpu.reset();

    mem.write(0xFFFC, instructions::JMP_IND);
    mem.write(0xFFFD, 0x80);
    mem.write(0xFFFE, 0x80);
    mem.write(0x8080, 0x90);
    mem.write(0x8081, 0x80);

    let r = cpu.execute(&mut mem);
    assert!(r.is_ok());

    assert_eq!(cpu.PC, 0x8090);
}
