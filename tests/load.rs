use bunnes::bus::Bus;
use bunnes::cpu::Cpu;
use bunnes::opcodes::{op_code_from_instruction, AddrMode, Instruction, OpCode};
use bunnes::rom::Cartridge;
use bunnes::status::ProcessorStatus;

/// A CPU at 0x8000 running `code` from a one-bank cartridge whose IRQ vector is 0x0100.
fn get_cpu(mut code: Vec<u8>) -> Cpu {
    code.resize(0x4000, 0);
    code[0x3FFE] = 0x00;
    code[0x3FFF] = 0x01;
    let mut image: Vec<u8> = vec![0x4E, 0x45, 0x53, 0x1A, 1, 0, 0, 0, 0, 0, 0, 0, 0, 0, 0, 0];
    image.extend(code);
    let cartridge = Cartridge::new(image).unwrap();
    Cpu {
        pc: 0x8000,
        sp: 0xFF,
        acc: 0,
        x: 0,
        y: 0,
        ps: ProcessorStatus::new(),
        bus: Bus::new(cartridge),
        cycles_to_finish: 0,
    }
}

fn instruction(op_code: OpCode, addr_mode: AddrMode) -> u8 {
    let instruction = Instruction { op_code, addr_mode };
    if let Some(byte_code) = op_code_from_instruction(instruction) {
        byte_code as u8
    } else {
        panic!("Invalid instruction: {} {}", op_code.to_string(), addr_mode.to_string())
    }
}

#[test]
fn lda_flags() {
    let code: Vec<u8> = vec![
        instruction(OpCode::Lda, AddrMode::Immediate),
        69,
        instruction(OpCode::Lda, AddrMode::Immediate),
        0,
        instruction(OpCode::Lda, AddrMode::Immediate),
        255,
    ];
    let mut cpu = get_cpu(code);

    while !cpu.step() {};
    assert_eq!(!cpu.ps.zero(), true);

    while !cpu.step() {};
    assert_eq!(cpu.ps.zero(), true);
    assert_eq!(cpu.ps.negative(), false);

    while !cpu.step() {};
    assert_eq!(cpu.ps.negative(), true);
}

#[test]
fn lda_immediate() {
    let code: Vec<u8> = vec![
        instruction(OpCode::Lda, AddrMode::Immediate),
        69
    ];
    let mut cpu = get_cpu(code);
    while !cpu.step() {};
    assert_eq!(cpu.acc, 69);
}

#[test]
fn lda_zero_page() {
    let code: Vec<u8> = vec![
        instruction(OpCode::Lda, AddrMode::Zp),
        1,
    ];
    let mut cpu = get_cpu(code);
    cpu.bus.ram[1] = 69;
    while !cpu.step() {};
    assert_eq!(cpu.acc, 69);
}

#[test]
fn lda_zero_page_x() {
    let code: Vec<u8> = vec![
        instruction(OpCode::Lda, AddrMode::ZpX),
        1,
    ];
    let mut cpu = get_cpu(code);
    cpu.x = 5;
    cpu.bus.ram[6] = 69;
    while !cpu.step() {};
    assert_eq!(cpu.acc, 69);
}

#[test]
fn lda_absolute() {
    let code: Vec<u8> = vec![
        instruction(OpCode::Lda, AddrMode::Absolute),
        0x00, 0x01,
    ];
    let mut cpu = get_cpu(code);
    cpu.bus.ram[0x100] = 69;
    while !cpu.step() {};
    assert_eq!(cpu.acc, 69);
}

#[test]
fn lda_absolute_x() {
    let code: Vec<u8> = vec![
        instruction(OpCode::Lda, AddrMode::AbsoluteX),
        0x00, 0x01,
    ];
    let mut cpu = get_cpu(code);
    cpu.x = 5;
    cpu.bus.ram[0x105] = 69;
    while !cpu.step() {};
    assert_eq!(cpu.acc, 69);
}

#[test]
fn lda_absolute_y() {
    let code: Vec<u8> = vec![
        instruction(OpCode::Lda, AddrMode::AbsoluteY),
        0x00, 0x01,
    ];
    let mut cpu = get_cpu(code);
    cpu.y = 5;
    cpu.bus.ram[0x105] = 69;
    while !cpu.step() {};
    assert_eq!(cpu.acc, 69);
}

#[test]
fn lda_indirect_x() {
    let code: Vec<u8> = vec![
        instruction(OpCode::Lda, AddrMode::IndirectX),
        0x20
    ];
    let mut cpu = get_cpu(code);
    cpu.x = 4;
    cpu.bus.ram[0x24] = 0x00;
    cpu.bus.ram[0x25] = 0x05;
    cpu.bus.ram[0x500] = 69;
    while !cpu.step() {};
    assert_eq!(cpu.acc, 69);
}

#[test]
fn lda_indirect_y() {
    let code: Vec<u8> = vec![
        instruction(OpCode::Lda, AddrMode::IndirectY),
        0x20
    ];
    let mut cpu = get_cpu(code);
    cpu.y = 4;
    cpu.bus.ram[0x20] = 0x00;
    cpu.bus.ram[0x21] = 0x05;
    cpu.bus.ram[0x504] = 69;
    while !cpu.step() {};
    assert_eq!(cpu.acc, 69);
}

#[test]
fn ldx_flags() {
    let code: Vec<u8> = vec![
        instruction(OpCode::Ldx, AddrMode::Immediate),
        69,
        instruction(OpCode::Ldx, AddrMode::Immediate),
        0,
        instruction(OpCode::Ldx, AddrMode::Immediate),
        255,
    ];
    let mut cpu = get_cpu(code);

    while !cpu.step() {};
    assert_eq!(!cpu.ps.zero(), true);

    while !cpu.step() {};
    assert_eq!(cpu.ps.zero(), true);
    assert_eq!(cpu.ps.negative(), false);

    while !cpu.step() {};
    assert_eq!(cpu.ps.negative(), true);
}

#[test]
fn ldx_immediate() {
    let code: Vec<u8> = vec![
        instruction(OpCode::Ldx, AddrMode::Immediate),
        69
    ];
    let mut cpu = get_cpu(code);
    while !cpu.step() {};
    assert_eq!(cpu.x, 69);
}

#[test]
fn ldx_zero_page() {
    let code: Vec<u8> = vec![
        instruction(OpCode::Ldx, AddrMode::Zp),
        1,
    ];
    let mut cpu = get_cpu(code);
    cpu.bus.ram[1] = 69;
    while !cpu.step() {};
    assert_eq!(cpu.x, 69);
}

#[test]
fn ldx_zero_page_y() {
    let code: Vec<u8> = vec![
        instruction(OpCode::Ldx, AddrMode::ZpY),
        1,
    ];
    let mut cpu = get_cpu(code);
    cpu.y = 5;
    cpu.bus.ram[6] = 69;
    while !cpu.step() {};
    assert_eq!(cpu.x, 69);
}

#[test]
fn ldx_absolute() {
    let code: Vec<u8> = vec![
        instruction(OpCode::Ldx, AddrMode::Absolute),
        0x00, 0x01,
    ];
    let mut cpu = get_cpu(code);
    cpu.bus.ram[0x100] = 69;
    while !cpu.step() {};
    assert_eq!(cpu.x, 69);
}

#[test]
fn ldx_absolute_y() {
    let code: Vec<u8> = vec![
        instruction(OpCode::Ldx, AddrMode::AbsoluteY),
        0x00, 0x01,
    ];
    let mut cpu = get_cpu(code);
    cpu.y = 5;
    cpu.bus.ram[0x105] = 69;
    while !cpu.step() {};
    assert_eq!(cpu.x, 69);
}

#[test]
fn ldy_flags() {
    let code: Vec<u8> = vec![
        instruction(OpCode::Ldy, AddrMode::Immediate),
        69,
        instruction(OpCode::Ldy, AddrMode::Immediate),
        0,
        instruction(OpCode::Ldy, AddrMode::Immediate),
        255,
    ];
    let mut cpu = get_cpu(code);

    while !cpu.step() {};
    assert_eq!(!cpu.ps.zero(), true);

    while !cpu.step() {};
    assert_eq!(cpu.ps.zero(), true);
    assert_eq!(cpu.ps.negative(), false);

    while !cpu.step() {};
    assert_eq!(cpu.ps.negative(), true);
}

#[test]
fn ldy_immediate() {
    let code: Vec<u8> = vec![
        instruction(OpCode::Ldy, AddrMode::Immediate),
        69
    ];
    let mut cpu = get_cpu(code);
    while !cpu.step() {};
    assert_eq!(cpu.y, 69);
}

#[test]
fn ldy_zero_page() {
    let code: Vec<u8> = vec![
        instruction(OpCode::Ldy, AddrMode::Zp),
        1,
    ];
    let mut cpu = get_cpu(code);
    cpu.bus.ram[1] = 69;
    while !cpu.step() {};
    assert_eq!(cpu.y, 69);
}

#[test]
fn ldy_zero_page_x() {
    let code: Vec<u8> = vec![
        instruction(OpCode::Ldy, AddrMode::ZpX),
        1,
    ];
    let mut cpu = get_cpu(code);
    cpu.x = 5;
    cpu.bus.ram[6] = 69;
    while !cpu.step() {};
    assert_eq!(cpu.y, 69);
}

#[test]
fn ldy_absolute() {
    let code: Vec<u8> = vec![
        instruction(OpCode::Ldy, AddrMode::Absolute),
        0x00, 0x01,
    ];
    let mut cpu = get_cpu(code);
    cpu.bus.ram[0x100] = 69;
    while !cpu.step() {};
    assert_eq!(cpu.y, 69);
}

#[test]
fn ldy_absolute_x() {
    let code: Vec<u8> = vec![
        instruction(OpCode::Ldy, AddrMode::AbsoluteX),
        0x00, 0x01,
    ];
    let mut cpu = get_cpu(code);
    cpu.x = 5;
    cpu.bus.ram[0x105] = 69;
    while !cpu.step() {};
    assert_eq!(cpu.y, 69);
}

#[test]
fn sta_zero_page() {
    let code: Vec<u8> = vec![
        instruction(OpCode::Sta, AddrMode::Zp),
        1,
    ];
    let mut cpu = get_cpu(code);
    cpu.acc = 69;
    while !cpu.step() {};
    assert_eq!(cpu.bus.ram[1], 69);
}

#[test]
fn sta_zero_page_x() {
    let code: Vec<u8> = vec![
        instruction(OpCode::Sta, AddrMode::ZpX),
        1,
    ];
    let mut cpu = get_cpu(code);
    cpu.x = 5;
    cpu.acc = 69;
    while !cpu.step() {};
    assert_eq!(cpu.bus.ram[6], 69);
}

#[test]
fn sta_absolute() {
    let code: Vec<u8> = vec![
        instruction(OpCode::Sta, AddrMode::Absolute),
        0x00, 0x01,
    ];
    let mut cpu = get_cpu(code);
    cpu.acc = 69;
    while !cpu.step() {};
    assert_eq!(cpu.bus.ram[0x0100], 69);
}

#[test]
fn sta_absolute_x() {
    let code: Vec<u8> = vec![
        instruction(OpCode::Sta, AddrMode::AbsoluteX),
        0x00, 0x01,
    ];
    let mut cpu = get_cpu(code);
    cpu.acc = 69;
    cpu.x = 5;
    while !cpu.step() {};
    assert_eq!(cpu.bus.ram[0x105], 69);
}

#[test]
fn sta_absolute_y() {
    let code: Vec<u8> = vec![
        instruction(OpCode::Sta, AddrMode::AbsoluteY),
        0x00, 0x01,
    ];
    let mut cpu = get_cpu(code);
    cpu.acc = 69;
    cpu.y = 5;
    while !cpu.step() {};
    assert_eq!(cpu.bus.ram[0x105], 69);
}

#[test]
fn sta_indirect_x() {
    let code: Vec<u8> = vec![
        instruction(OpCode::Sta, AddrMode::IndirectX),
        0x20
    ];
    let mut cpu = get_cpu(code);
    cpu.acc = 69;
    cpu.x = 4;
    cpu.bus.ram[0x24] = 0x00;
    cpu.bus.ram[0x25] = 0x05;
    while !cpu.step() {};
    assert_eq!(cpu.bus.ram[0x500], 69);
}

#[test]
fn sta_indirect_y() {
    let code: Vec<u8> = vec![
        instruction(OpCode::Sta, AddrMode::IndirectY),
        0x20
    ];
    let mut cpu = get_cpu(code);
    cpu.acc = 69;
    cpu.y = 4;
    cpu.bus.ram[0x20] = 0x00;
    cpu.bus.ram[0x21] = 0x05;
    while !cpu.step() {};
    assert_eq!(cpu.bus.ram[0x504], 69);
}

#[test]
fn stx_zero_page() {
    let code: Vec<u8> = vec![
        instruction(OpCode::Stx, AddrMode::Zp),
        1,
    ];
    let mut cpu = get_cpu(code);
    cpu.x = 69;
    while !cpu.step() {};
    assert_eq!(cpu.bus.ram[1], 69);
}

#[test]
fn stx_zero_page_y() {
    let code: Vec<u8> = vec![
        instruction(OpCode::Stx, AddrMode::ZpY),
        1,
    ];
    let mut cpu = get_cpu(code);
    cpu.y = 5;
    cpu.x = 69;
    while !cpu.step() {};
    assert_eq!(cpu.bus.ram[6], 69);
}

#[test]
fn stx_absolute() {
    let code: Vec<u8> = vec![
        instruction(OpCode::Stx, AddrMode::Absolute),
        0x00, 0x01,
    ];
    let mut cpu = get_cpu(code);
    cpu.x = 69;
    while !cpu.step() {};
    assert_eq!(cpu.bus.ram[0x0100], 69);
}

#[test]
fn sty_zero_page() {
    let code: Vec<u8> = vec![
        instruction(OpCode::Sty, AddrMode::Zp),
        1,
    ];
    let mut cpu = get_cpu(code);
    cpu.y = 69;
    while !cpu.step() {};
    assert_eq!(cpu.bus.ram[1], 69);
}

#[test]
fn sty_zero_page_x() {
    let code: Vec<u8> = vec![
        instruction(OpCode::Sty, AddrMode::ZpX),
        1,
    ];
    let mut cpu = get_cpu(code);
    cpu.x = 5;
    cpu.y = 69;
    while !cpu.step() {};
    assert_eq!(cpu.bus.ram[6], 69);
}

#[test]
fn sty_absolute() {
    let code: Vec<u8> = vec![
        instruction(OpCode::Sty, AddrMode::Absolute),
        0x00, 0x01,
    ];
    let mut cpu = get_cpu(code);
    cpu.y = 69;
    while !cpu.step() {};
    assert_eq!(cpu.bus.ram[0x0100], 69);
}

#[test]
fn tax_implicit() {
    let code: Vec<u8> = vec![
        instruction(OpCode::Tax, AddrMode::Implicit),
        instruction(OpCode::Tax, AddrMode::Implicit),
        instruction(OpCode::Tax, AddrMode::Implicit),
    ];
    let mut cpu = get_cpu(code);
    cpu.acc = 69;
    while !cpu.step() {};
    assert_eq!(cpu.x, 69);
    assert_eq!(cpu.ps.zero(), false);
    assert_eq!(cpu.ps.negative(), false);
    
    cpu.acc = 0;
    while !cpu.step() {};
    assert_eq!(cpu.x, 0);
    assert_eq!(cpu.ps.zero(), true);
    assert_eq!(cpu.ps.negative(), false);
    
    cpu.acc = 255;
    while !cpu.step() {};
    assert_eq!(cpu.x, 255);
    assert_eq!(cpu.ps.zero(), false);
    assert_eq!(cpu.ps.negative(), true);
}

#[test]
fn tay_implicit() {
    let code: Vec<u8> = vec![
        instruction(OpCode::Tay, AddrMode::Implicit),
        instruction(OpCode::Tay, AddrMode::Implicit),
        instruction(OpCode::Tay, AddrMode::Implicit),
    ];
    let mut cpu = get_cpu(code);
    cpu.acc = 69;
    while !cpu.step() {};
    assert_eq!(cpu.y, 69);
    assert_eq!(cpu.ps.zero(), false);
    assert_eq!(cpu.ps.negative(), false);
    
    cpu.acc = 0;
    while !cpu.step() {};
    assert_eq!(cpu.y, 0);
    assert_eq!(cpu.ps.zero(), true);
    assert_eq!(cpu.ps.negative(), false);
    
    cpu.acc = 255;
    while !cpu.step() {};
    assert_eq!(cpu.y, 255);
    assert_eq!(cpu.ps.zero(), false);
    assert_eq!(cpu.ps.negative(), true);
}

#[test]
fn tsx_implicit() {
    let code: Vec<u8> = vec![
        instruction(OpCode::Tsx, AddrMode::Implicit),
        instruction(OpCode::Tsx, AddrMode::Implicit),
        instruction(OpCode::Tsx, AddrMode::Implicit),
    ];
    let mut cpu = get_cpu(code);
    cpu.sp = 69;
    while !cpu.step() {};
    assert_eq!(cpu.x, 69);
    assert_eq!(cpu.ps.zero(), false);
    assert_eq!(cpu.ps.negative(), false);
    
    cpu.sp = 0;
    while !cpu.step() {};
    assert_eq!(cpu.x, 0);
    assert_eq!(cpu.ps.zero(), true);
    assert_eq!(cpu.ps.negative(), false);
    
    cpu.sp = 255;
    while !cpu.step() {};
    assert_eq!(cpu.x, 255);
    assert_eq!(cpu.ps.zero(), false);
    assert_eq!(cpu.ps.negative(), true);
}

#[test]
fn txa_implicit() {
    let code: Vec<u8> = vec![
        instruction(OpCode::Txa, AddrMode::Implicit),
        instruction(OpCode::Txa, AddrMode::Implicit),
        instruction(OpCode::Txa, AddrMode::Implicit),
    ];
    let mut cpu = get_cpu(code);
    cpu.x = 69;
    while !cpu.step() {};
    assert_eq!(cpu.acc, 69);
    assert_eq!(cpu.ps.zero(), false);
    assert_eq!(cpu.ps.negative(), false);
    
    cpu.x = 0;
    while !cpu.step() {};
    assert_eq!(cpu.acc, 0);
    assert_eq!(cpu.ps.zero(), true);
    assert_eq!(cpu.ps.negative(), false);
    
    cpu.x = 255;
    while !cpu.step() {};
    assert_eq!(cpu.acc, 255);
    assert_eq!(cpu.ps.zero(), false);
    assert_eq!(cpu.ps.negative(), true);
}

#[test]
fn txs_implicit() {
    let code: Vec<u8> = vec![
        instruction(OpCode::Txs, AddrMode::Implicit),
    ];
    let mut cpu = get_cpu(code);
    cpu.x = 69;
    while !cpu.step() {};
    assert_eq!(cpu.sp, 69);
}

#[test]
fn tya_implicit() {
    let code: Vec<u8> = vec![
        instruction(OpCode::Tya, AddrMode::Implicit),
        instruction(OpCode::Tya, AddrMode::Implicit),
        instruction(OpCode::Tya, AddrMode::Implicit),
    ];
    let mut cpu = get_cpu(code);
    cpu.y = 69;
    while !cpu.step() {};
    assert_eq!(cpu.acc, 69);
    assert_eq!(cpu.ps.zero(), false);
    assert_eq!(cpu.ps.negative(), false);
    
    cpu.y = 0;
    while !cpu.step() {};
    assert_eq!(cpu.acc, 0);
    assert_eq!(cpu.ps.zero(), true);
    assert_eq!(cpu.ps.negative(), false);
    
    cpu.y = 255;
    while !cpu.step() {};
    assert_eq!(cpu.acc, 255);
    assert_eq!(cpu.ps.zero(), false);
    assert_eq!(cpu.ps.negative(), true);
}
