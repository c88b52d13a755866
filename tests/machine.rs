use bunnes::bus::Bus;
use bunnes::cpu::Cpu;
use bunnes::emulator::{Emulator, CPU_TICKS_PER_FRAME, DOTS_PER_FRAME};
use bunnes::ppu::Ppu;
use bunnes::rom::{CartridgeError, Mirroring};
use bunnes::semantics::Fault;
use bunnes::opcodes::{op_code_from_instruction, AddrMode, Instruction, OpCode};
use bunnes::rom::Cartridge;
use bunnes::status::ProcessorStatus;

/// A CPU at 0x8000 running `code` from a one-bank cartridge whose IRQ vector is 0x0100.
fn get_cpu(mut code: Vec<u8>) -> Cpu {
    code.resize(0x4000, 0);
    code[0x3FFE] = 0x00;
    code[0x3FFF] = 0x01;
    let mut image: Vec<u8> = vec![0x4E, 0x45, 0x53, 0x1A, 1, 0, 0, 0, 0, 0, 0, 0, 0, 0, 0, 0];
    image.extend(code);
    let cartridge = Cartridge::new(image).unwrap();
    Cpu {
        pc: 0x8000,
        sp: 0xFF,
        acc: 0,
        x: 0,
        y: 0,
        ps: ProcessorStatus::new(),
        bus: Bus::new(cartridge),
        cycles_to_finish: 0,
    }
}

fn instruction(op_code: OpCode, addr_mode: AddrMode) -> u8 {
    let instruction = Instruction { op_code, addr_mode };
    if let Some(byte_code) = op_code_from_instruction(instruction) {
        byte_code as u8
    } else {
        panic!("Invalid instruction: {} {}", op_code.to_string(), addr_mode.to_string())
    }
}

fn ines(prg_banks: u8, flags6: u8, body: Vec<u8>) -> Vec<u8> {
    let mut image: Vec<u8> = vec![0x4E, 0x45, 0x53, 0x1A, prg_banks, 0, flags6, 0, 0, 0, 0, 0, 0, 0, 0, 0];
    image.extend(body);
    image
}

#[test]
fn scenario_lda_immediate() {
    let mut cpu = get_cpu(vec![0xA9, 0x45]);
    assert!(cpu.step());
    assert_eq!(cpu.acc, 0x45);
    assert!(!cpu.ps.zero());
    assert!(!cpu.ps.negative());
    assert_eq!(cpu.pc, 0x8002);
}

#[test]
fn scenario_lda_immediate_zero() {
    let mut cpu = get_cpu(vec![0xA9, 0x00]);
    assert!(cpu.step());
    assert_eq!(cpu.acc, 0x00);
    assert!(cpu.ps.zero());
    assert!(!cpu.ps.negative());
    assert_eq!(cpu.pc, 0x8002);
}

#[test]
fn scenario_adc_with_carry() {
    let mut cpu = get_cpu(vec![0x69, 0x22, 0x69, 0x22]);
    cpu.acc = 0x35;
    while !cpu.step() {}
    assert_eq!(cpu.acc, 0x57);
    assert!(!cpu.ps.carry());
    assert!(!cpu.ps.zero());
    assert!(!cpu.ps.overflow());
    assert!(!cpu.ps.negative());
    cpu.acc = 0x35;
    cpu.ps.set_carry(true);
    while !cpu.step() {}
    assert_eq!(cpu.acc, 0x58);
}

#[test]
fn scenario_asl_accumulator_carry_out() {
    let mut cpu = get_cpu(vec![0x0A]);
    cpu.acc = 0x8A;
    assert!(cpu.step());
    assert_eq!(cpu.acc, 0x14);
    assert!(cpu.ps.carry());
    assert!(!cpu.ps.negative());
    assert!(!cpu.ps.zero());
}

#[test]
fn scenario_indirect_indexed_lda() {
    let mut cpu = get_cpu(vec![0xB1, 0x20]);
    cpu.bus.ram[0x20] = 0x00;
    cpu.bus.ram[0x21] = 0x05;
    cpu.y = 4;
    cpu.bus.ram[0x504] = 0x45;
    assert!(cpu.step());
    assert_eq!(cpu.acc, 0x45);
}

#[test]
fn scenario_branch_forward_and_backward() {
    let mut cpu = get_cpu(vec![0xD0, 0x10]);
    assert!(cpu.step());
    assert_eq!(cpu.pc, 0x8012);
    // taken on the same page: one extra cycle
    assert_eq!(cpu.cycles_to_finish, 2);

    let mut cpu = get_cpu(vec![0xD0, 0x10]);
    cpu.ps.set_zero(true);
    assert!(cpu.step());
    assert_eq!(cpu.pc, 0x8002);
    assert_eq!(cpu.cycles_to_finish, 1);

    let mut cpu = get_cpu(vec![0xD0, 0xF0]);
    assert!(cpu.step());
    assert_eq!(cpu.pc, 0x7FF2);
    // taken onto another page: two extra cycles
    assert_eq!(cpu.cycles_to_finish, 3);
}

#[test]
fn every_straight_line_opcode_advances_pc_by_its_size() {
    let mut mapped = 0;
    for b in 0..=255u8 {
        if let Some(ins) = Instruction::get(b) {
            mapped += 1;
            let control = matches!(
                ins.op_code,
                OpCode::Jmp | OpCode::Jsr | OpCode::Rts | OpCode::Rti | OpCode::Brk
                    | OpCode::Bcc | OpCode::Bcs | OpCode::Beq | OpCode::Bne | OpCode::Bmi
                    | OpCode::Bpl | OpCode::Bvc | OpCode::Bvs
            );
            if control {
                continue;
            }
            let mut cpu = get_cpu(vec![b, 0x00, 0x00]);
            assert!(cpu.step());
            assert_eq!(cpu.pc, 0x8000 + ins.size(), "opcode {:#04X}", b);
            assert_eq!(cpu.cycles_to_finish as u16 + 1, ins.cycles() as u16);
        }
    }
    assert_eq!(mapped, 151);
}

#[test]
fn unmapped_opcode_is_a_fault() {
    let mut cpu = get_cpu(vec![0x02]);
    assert_eq!(cpu.try_step(), Err(Fault::UnknownOpcode { pc: 0x8000, opcode: 0x02 }));
    assert_eq!(Instruction::get(0xFF), None);
}

#[test]
fn write_to_test_mode_range_is_a_fault() {
    let mut cpu = get_cpu(vec![0x8D, 0x18, 0x40]);
    assert_eq!(cpu.try_step(), Err(Fault::DisabledWrite { pc: 0x8000, addr: 0x4018 }));
}

#[test]
fn compare_sets_carry_zero_negative() {
    let mut cpu = get_cpu(vec![0xC9, 0x20, 0xE0, 0x10, 0xC0, 0x05]);
    cpu.acc = 0x10;
    cpu.x = 0x10;
    cpu.y = 0x80;
    while !cpu.step() {}
    assert_eq!((cpu.ps.carry(), cpu.ps.zero(), cpu.ps.negative()), (false, false, true));
    while !cpu.step() {}
    assert_eq!((cpu.ps.carry(), cpu.ps.zero(), cpu.ps.negative()), (true, true, false));
    while !cpu.step() {}
    assert_eq!((cpu.ps.carry(), cpu.ps.zero(), cpu.ps.negative()), (true, false, false));
    assert_eq!(cpu.acc, 0x10);
}

#[test]
fn shifts_put_the_ejected_bit_in_carry() {
    let mut cpu = get_cpu(vec![0x4A, 0x6A, 0x2A]);
    cpu.acc = 0x01;
    while !cpu.step() {}
    assert_eq!(cpu.acc, 0x00);
    assert!(cpu.ps.carry());
    assert!(cpu.ps.zero());
    while !cpu.step() {}
    assert_eq!(cpu.acc, 0x80);
    assert!(!cpu.ps.carry());
    assert!(cpu.ps.negative());
    while !cpu.step() {}
    assert_eq!(cpu.acc, 0x00);
    assert!(cpu.ps.carry());
}

#[test]
fn sbc_borrow_and_overflow() {
    let mut cpu = get_cpu(vec![0xE9, 0x01, 0xE9, 0x01]);
    cpu.acc = 0x00;
    cpu.ps.set_carry(true);
    while !cpu.step() {}
    assert_eq!(cpu.acc, 0xFF);
    assert!(!cpu.ps.carry());
    assert!(!cpu.ps.overflow());
    cpu.acc = 0x80;
    cpu.ps.set_carry(true);
    while !cpu.step() {}
    assert_eq!(cpu.acc, 0x7F);
    assert!(cpu.ps.carry());
    assert!(cpu.ps.overflow());
}

#[test]
fn bit_copies_bits_six_and_seven() {
    let mut cpu = get_cpu(vec![0x24, 0x10]);
    cpu.acc = 0x01;
    cpu.bus.ram[0x10] = 0xC0;
    while !cpu.step() {}
    assert!(cpu.ps.zero());
    assert!(cpu.ps.negative());
    assert!(cpu.ps.overflow());
}

#[test]
fn jsr_then_rts_returns_after_the_call() {
    // 0x8000: JSR 0x8010; 0x8003: NOP ... 0x8010: RTS
    let mut code = vec![0x20, 0x10, 0x80, 0xEA];
    code.resize(0x10, 0xEA);
    code.push(0x60);
    let mut cpu = get_cpu(code);
    while !cpu.step() {}
    assert_eq!(cpu.pc, 0x8010);
    assert_eq!(cpu.sp, 0xFD);
    while !cpu.step() {}
    assert_eq!(cpu.pc, 0x8003);
    assert_eq!(cpu.sp, 0xFF);
}

#[test]
fn push_then_pull_restores_the_accumulator() {
    let mut cpu = get_cpu(vec![0x48, 0xA9, 0x00, 0x68]);
    cpu.acc = 0x99;
    while !cpu.step() {}
    while !cpu.step() {}
    assert_eq!(cpu.acc, 0);
    while !cpu.step() {}
    assert_eq!(cpu.acc, 0x99);
    assert_eq!(cpu.sp, 0xFF);
    assert!(cpu.ps.negative());
}

#[test]
fn rom_writes_are_ignored() {
    let mut cpu = get_cpu(vec![0xAB, 0xCD]);
    cpu.bus.write(0x8000, 0x11);
    cpu.bus.write(0xC001, 0x22);
    assert_eq!(cpu.bus.read_8(0x8000), 0xAB);
    assert_eq!(cpu.bus.read_8(0xC001), 0xCD);
}

#[test]
fn ram_repeats_every_two_kilobytes() {
    let mut cpu = get_cpu(vec![]);
    cpu.bus.write(0x1923, 0x5A);
    for k in [0x0000u16, 0x0800, 0x1000, 0x1800] {
        assert_eq!(cpu.bus.read_8(0x0123 | k), 0x5A);
    }
    assert_eq!(cpu.bus.ram[0x0123], 0x5A);
}

#[test]
fn ppu_registers_repeat_every_eight_bytes() {
    let mut cpu = get_cpu(vec![]);
    cpu.bus.write(0x3FF9, 0x42);
    assert_eq!(cpu.bus.ppu.mask, 0x42);
    assert_eq!(cpu.bus.read_8(0x2001), 0x42);
    assert_eq!(cpu.bus.read_8(0x2009), 0x42);
}

#[test]
fn status_read_clears_vblank() {
    let mut cpu = get_cpu(vec![]);
    cpu.bus.write(0x2002, 0xFF);
    assert_eq!(cpu.bus.read_8(0x2002), 0xFF);
    assert_eq!(cpu.bus.read_8(0x3FFA), 0x7F);
}

#[test]
fn unused_space_reads_zero() {
    let mut cpu = get_cpu(vec![]);
    assert_eq!(cpu.bus.read_8(0x4016), 0);
    assert_eq!(cpu.bus.read_8(0x6000), 0);
    cpu.bus.write(0x4000, 0x12);
    assert_eq!(cpu.bus.read_8(0x4000), 0);
}

#[test]
fn sixteen_kilobyte_prg_appears_twice() {
    let mut cpu = get_cpu(vec![0x12, 0x34]);
    assert_eq!(cpu.bus.read_16(0x8000), 0x3412);
    assert_eq!(cpu.bus.read_16(0xC000), 0x3412);
    assert_eq!(cpu.bus.rom_len(), 0x4000);
    assert_eq!(cpu.bus.memory_chunk(0xBFFF, 3), vec![0x01, 0x12, 0x34]);
}

#[test]
fn thirty_two_kilobyte_prg_is_mapped_flat() {
    let mut prg = vec![0u8; 0x8000];
    prg[0] = 1;
    prg[0x4000] = 2;
    let cartridge = Cartridge::new(ines(2, 0, prg)).unwrap();
    assert_eq!(cartridge.rom_len(), 0x8000);
    let mut bus = Bus::new(cartridge);
    assert_eq!(bus.read_8(0x8000), 1);
    assert_eq!(bus.read_8(0xC000), 2);
}

#[test]
fn cartridge_header_errors() {
    assert_eq!(Cartridge::new(vec![0x4E, 0x45, 0x53]).unwrap_err(), CartridgeError::TooShort);
    let mut bad = ines(1, 0, vec![0; 0x4000]);
    bad[3] = 0x1B;
    assert_eq!(Cartridge::new(bad).unwrap_err(), CartridgeError::BadMagic);
    assert_eq!(
        Cartridge::new(ines(1, 0x10, vec![0; 0x4000])).unwrap_err(),
        CartridgeError::UnsupportedMapper(1)
    );
    assert_eq!(Cartridge::new(ines(3, 0, vec![0; 0xC000])).unwrap_err(), CartridgeError::BadPrgSize(3));
    assert_eq!(Cartridge::new(ines(0, 0, vec![])).unwrap_err(), CartridgeError::BadPrgSize(0));
    assert_eq!(Cartridge::new(ines(1, 0, vec![0; 0x3FFF])).unwrap_err(), CartridgeError::Truncated);
}

#[test]
fn cartridge_skips_the_trainer_and_reads_flags() {
    let mut body = vec![0xEEu8; 512];
    let mut prg = vec![0u8; 0x4000];
    prg[0] = 0x77;
    body.extend(prg);
    body.extend(vec![0x55u8; 0x2000]);
    let mut image = ines(1, 0x05, body);
    image[5] = 1;
    let cartridge = Cartridge::new(image).unwrap();
    assert!(cartridge.has_trainer());
    assert_eq!(cartridge.mirroring(), Mirroring::Vertical);
    assert_eq!(cartridge.mapper(), 0);
    assert_eq!(cartridge.prg()[0], 0x77);
    assert_eq!(cartridge.chr().len(), 0x2000);
    assert_eq!(cartridge.chr()[0], 0x55);
}

#[test]
fn ppu_raises_and_clears_vblank() {
    let mut ppu = Ppu::new();
    ppu.dot = 1;
    ppu.scanline = 241;
    ppu.step(241);
    assert!(ppu.in_vblank());
    assert_eq!(ppu.dot, 2);
    ppu.dot = 1;
    ppu.scanline = 261;
    ppu.step(261);
    assert!(!ppu.in_vblank());
    ppu.dot = 340;
    ppu.step(261);
    assert_eq!((ppu.dot, ppu.scanline, ppu.frame), (0, 0, 1));
}

#[test]
fn ppu_register_reads_and_writes() {
    let mut ppu = Ppu::new();
    for r in 0..8u8 {
        ppu.set_register(r, 0x80 | r);
    }
    assert_eq!(ppu.register(0), 0x80);
    assert_eq!(ppu.register(7), 0x87);
    assert_eq!(ppu.register(2), 0x82);
    assert_eq!(ppu.register(2), 0x02);
}

fn looping_emulator() -> Emulator {
    // JMP 0x8000 forever; reset vector 0x8000
    let mut prg = vec![0x4C, 0x00, 0x80];
    prg.resize(0x4000, 0);
    prg[0x3FFC] = 0x00;
    prg[0x3FFD] = 0x80;
    let mut emulator = Emulator::new(Cartridge::new(ines(1, 0, prg)).unwrap());
    emulator.reset();
    emulator
}

#[test]
fn reset_loads_the_reset_vector() {
    let emulator = looping_emulator();
    assert_eq!(emulator.cpu.pc, 0x8000);
    assert_eq!(emulator.cpu.sp, 0xFF);
    assert_eq!(emulator.cpu.ps.get_reg(), 0);
}

#[test]
fn frame_has_89342_dots_and_29780_cpu_ticks() {
    let mut emulator = looping_emulator();
    assert_eq!(emulator.run_frame(), Ok(()));
    assert_eq!(emulator.dots, DOTS_PER_FRAME);
    assert_eq!(emulator.cpu_ticks, CPU_TICKS_PER_FRAME);
    assert_eq!(emulator.cpu_ticks, 29780);
    assert_eq!(emulator.cpu.bus.ppu.frame, 1);
    assert_eq!(emulator.run_frame(), Ok(()));
    assert_eq!(emulator.cpu_ticks, 2 * 89342 / 3);
}

#[test]
fn emulator_step_runs_one_whole_instruction() {
    let mut emulator = looping_emulator();
    emulator.cpu.cycles_to_finish = 5;
    emulator.step();
    assert_eq!(emulator.cpu.pc, 0x8000);
    assert_eq!(emulator.cpu.cycles_to_finish, 2);
}

#[test]
fn encoding_finds_the_table_entry() {
    assert_eq!(op_code_from_instruction(Instruction { op_code: OpCode::Lda, addr_mode: AddrMode::Immediate }), Some(0xA9));
    assert_eq!(Instruction::test_mode(OpCode::Sta, AddrMode::Immediate), None);
    assert_eq!(Instruction { op_code: OpCode::Jmp, addr_mode: AddrMode::Indirect }.mode(), Some(0x6C));
    assert_eq!(Instruction::get(0xB1), Some(Instruction { op_code: OpCode::Lda, addr_mode: AddrMode::IndirectY }));
}

#[test]
fn status_flags_are_independent_bits() {
    let mut ps = ProcessorStatus::new();
    ps.set_carry(true);
    ps.set_overflow(true);
    ps.set_negative(true);
    assert_eq!(ps.get_reg(), 0xC1);
    ps.set_overflow(false);
    assert_eq!(ps.get_reg(), 0x81);
    assert!(ps.carry() && !ps.zero() && !ps.irqb() && !ps.decimal() && !ps.brk() && ps.negative());
}

#[test]
fn mnemonic_and_mode_names() {
    assert_eq!(OpCode::Lda.to_string(), "LDA");
    assert_eq!(OpCode::Tya.to_string(), "TYA");
    assert_eq!(AddrMode::ZpX.to_string(), "Zero page X");
    assert_eq!(AddrMode::IndirectY.to_string(), "Indirect Y");
}
