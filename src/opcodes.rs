//! The instruction set: mnemonics, addressing modes, and the 256-entry decode table.
use vstd::prelude::*;

verus! {

/// How an instruction finds its operand.
#[derive(Debug, Clone, Copy, PartialEq, Eq, Structural)]
pub enum AddrMode {
    Implicit,
    Accumulator,
    Immediate,
    Zp,
    ZpX,
    ZpY,
    Relative,
    Absolute,
    AbsoluteX,
    AbsoluteY,
    Indirect,
    IndirectX,
    IndirectY,
}

/// The documented mnemonics.
#[derive(Debug, Clone, Copy, PartialEq, Eq, Structural)]
pub enum OpCode {
    Adc,
    And,
    Asl,
    Bcc,
    Bcs,
    Beq,
    Bit,
    Bmi,
    Bne,
    Bpl,
    Brk,
    Bvc,
    Bvs,
    Clc,
    Cld,
    Cli,
    Clv,
    Cmp,
    Cpx,
    Cpy,
    Dec,
    Dex,
    Dey,
    Eor,
    Inc,
    Inx,
    Iny,
    Jmp,
    Jsr,
    Lda,
    Ldx,
    Ldy,
    Lsr,
    Nop,
    Ora,
    Pha,
    Php,
    Pla,
    Plp,
    Rol,
    Ror,
    Rti,
    Rts,
    Sbc,
    Sec,
    Sed,
    Sei,
    Sta,
    Stx,
    Sty,
    Tax,
    Tay,
    Tsx,
    Txa,
    Txs,
    Tya,
}

/// A decoded opcode byte: what to do and where its operand comes from.
#[derive(Debug, Clone, Copy, PartialEq, Eq, Structural)]
pub struct Instruction {
    pub op_code: OpCode,
    pub addr_mode: AddrMode,
}

/// The decode table: each opcode byte maps to one instruction or to nothing.
pub open spec fn decode(byte: u8) -> Option<Instruction> {
    match byte {
        0x00 => Some(Instruction { op_code: OpCode::Brk, addr_mode: AddrMode::Implicit }),
        0x01 => Some(Instruction { op_code: OpCode::Ora, addr_mode: AddrMode::IndirectX }),
        0x05 => Some(Instruction { op_code: OpCode::Ora, addr_mode: AddrMode::Zp }),
        0x06 => Some(Instruction { op_code: OpCode::Asl, addr_mode: AddrMode::Zp }),
        0x08 => Some(Instruction { op_code: OpCode::Php, addr_mode: AddrMode::Implicit }),
        0x09 => Some(Instruction { op_code: OpCode::Ora, addr_mode: AddrMode::Immediate }),
        0x0A => Some(Instruction { op_code: OpCode::Asl, addr_mode: AddrMode::Accumulator }),
        0x0D => Some(Instruction { op_code: OpCode::Ora, addr_mode: AddrMode::Absolute }),
        0x0E => Some(Instruction { op_code: OpCode::Asl, addr_mode: AddrMode::Absolute }),
        0x10 => Some(Instruction { op_code: OpCode::Bpl, addr_mode: AddrMode::Relative }),
        0x11 => Some(Instruction { op_code: OpCode::Ora, addr_mode: AddrMode::IndirectY }),
        0x15 => Some(Instruction { op_code: OpCode::Ora, addr_mode: AddrMode::ZpX }),
        0x16 => Some(Instruction { op_code: OpCode::Asl, addr_mode: AddrMode::ZpX }),
        0x18 => Some(Instruction { op_code: OpCode::Clc, addr_mode: AddrMode::Implicit }),
        0x19 => Some(Instruction { op_code: OpCode::Ora, addr_mode: AddrMode::AbsoluteY }),
        0x1D => Some(Instruction { op_code: OpCode::Ora, addr_mode: AddrMode::AbsoluteX }),
        0x1E => Some(Instruction { op_code: OpCode::Asl, addr_mode: AddrMode::AbsoluteX }),
        0x20 => Some(Instruction { op_code: OpCode::Jsr, addr_mode: AddrMode::Absolute }),
        0x21 => Some(Instruction { op_code: OpCode::And, addr_mode: AddrMode::IndirectX }),
        0x24 => Some(Instruction { op_code: OpCode::Bit, addr_mode: AddrMode::Zp }),
        0x25 => Some(Instruction { op_code: OpCode::And, addr_mode: AddrMode::Zp }),
        0x26 => Some(Instruction { op_code: OpCode::Rol, addr_mode: AddrMode::Zp }),
        0x28 => Some(Instruction { op_code: OpCode::Plp, addr_mode: AddrMode::Implicit }),
        0x29 => Some(Instruction { op_code: OpCode::And, addr_mode: AddrMode::Immediate }),
        0x2A => Some(Instruction { op_code: OpCode::Rol, addr_mode: AddrMode::Accumulator }),
        0x2C => Some(Instruction { op_code: OpCode::Bit, addr_mode: AddrMode::Absolute }),
        0x2D => Some(Instruction { op_code: OpCode::And, addr_mode: AddrMode::Absolute }),
        0x2E => Some(Instruction { op_code: OpCode::Rol, addr_mode: AddrMode::Absolute }),
        0x30 => Some(Instruction { op_code: OpCode::Bmi, addr_mode: AddrMode::Relative }),
        0x31 => Some(Instruction { op_code: OpCode::And, addr_mode: AddrMode::IndirectY }),
        0x35 => Some(Instruction { op_code: OpCode::And, addr_mode: AddrMode::ZpX }),
        0x36 => Some(Instruction { op_code: OpCode::Rol, addr_mode: AddrMode::ZpX }),
        0x38 => Some(Instruction { op_code: OpCode::Sec, addr_mode: AddrMode::Implicit }),
        0x39 => Some(Instruction { op_code: OpCode::And, addr_mode: AddrMode::AbsoluteY }),
        0x3D => Some(Instruction { op_code: OpCode::And, addr_mode: AddrMode::AbsoluteX }),
        0x3E => Some(Instruction { op_code: OpCode::Rol, addr_mode: AddrMode::AbsoluteX }),
        0x40 => Some(Instruction { op_code: OpCode::Rti, addr_mode: AddrMode::Implicit }),
        0x41 => Some(Instruction { op_code: OpCode::Eor, addr_mode: AddrMode::IndirectX }),
        0x45 => Some(Instruction { op_code: OpCode::Eor, addr_mode: AddrMode::Zp }),
        0x46 => Some(Instruction { op_code: OpCode::Lsr, addr_mode: AddrMode::Zp }),
        0x48 => Some(Instruction { op_code: OpCode::Pha, addr_mode: AddrMode::Implicit }),
        0x49 => Some(Instruction { op_code: OpCode::Eor, addr_mode: AddrMode::Immediate }),
        0x4A => Some(Instruction { op_code: OpCode::Lsr, addr_mode: AddrMode::Accumulator }),
        0x4C => Some(Instruction { op_code: OpCode::Jmp, addr_mode: AddrMode::Absolute }),
        0x4D => Some(Instruction { op_code: OpCode::Eor, addr_mode: AddrMode::Absolute }),
        0x4E => Some(Instruction { op_code: OpCode::Lsr, addr_mode: AddrMode::Absolute }),
        0x50 => Some(Instruction { op_code: OpCode::Bvc, addr_mode: AddrMode::Relative }),
        0x51 => Some(Instruction { op_code: OpCode::Eor, addr_mode: AddrMode::IndirectY }),
        0x55 => Some(Instruction { op_code: OpCode::Eor, addr_mode: AddrMode::ZpX }),
        0x56 => Some(Instruction { op_code: OpCode::Lsr, addr_mode: AddrMode::ZpX }),
        0x58 => Some(Instruction { op_code: OpCode::Cli, addr_mode: AddrMode::Implicit }),
        0x59 => Some(Instruction { op_code: OpCode::Eor, addr_mode: AddrMode::AbsoluteY }),
        0x5D => Some(Instruction { op_code: OpCode::Eor, addr_mode: AddrMode::AbsoluteX }),
        0x5E => Some(Instruction { op_code: OpCode::Lsr, addr_mode: AddrMode::AbsoluteX }),
        0x60 => Some(Instruction { op_code: OpCode::Rts, addr_mode: AddrMode::Implicit }),
        0x61 => Some(Instruction { op_code: OpCode::Adc, addr_mode: AddrMode::IndirectX }),
        0x65 => Some(Instruction { op_code: OpCode::Adc, addr_mode: AddrMode::Zp }),
        0x66 => Some(Instruction { op_code: OpCode::Ror, addr_mode: AddrMode::Zp }),
        0x68 => Some(Instruction { op_code: OpCode::Pla, addr_mode: AddrMode::Implicit }),
        0x69 => Some(Instruction { op_code: OpCode::Adc, addr_mode: AddrMode::Immediate }),
        0x6A => Some(Instruction { op_code: OpCode::Ror, addr_mode: AddrMode::Accumulator }),
        0x6C => Some(Instruction { op_code: OpCode::Jmp, addr_mode: AddrMode::Indirect }),
        0x6D => Some(Instruction { op_code: OpCode::Adc, addr_mode: AddrMode::Absolute }),
        0x6E => Some(Instruction { op_code: OpCode::Ror, addr_mode: AddrMode::Absolute }),
        0x70 => Some(Instruction { op_code: OpCode::Bvs, addr_mode: AddrMode::Relative }),
        0x71 => Some(Instruction { op_code: OpCode::Adc, addr_mode: AddrMode::IndirectY }),
        0x75 => Some(Instruction { op_code: OpCode::Adc, addr_mode: AddrMode::ZpX }),
        0x76 => Some(Instruction { op_code: OpCode::Ror, addr_mode: AddrMode::ZpX }),
        0x78 => Some(Instruction { op_code: OpCode::Sei, addr_mode: AddrMode::Implicit }),
        0x79 => Some(Instruction { op_code: OpCode::Adc, addr_mode: AddrMode::AbsoluteY }),
        0x7D => Some(Instruction { op_code: OpCode::Adc, addr_mode: AddrMode::AbsoluteX }),
        0x7E => Some(Instruction { op_code: OpCode::Ror, addr_mode: AddrMode::AbsoluteX }),
        0x81 => Some(Instruction { op_code: OpCode::Sta, addr_mode: AddrMode::IndirectX }),
        0x84 => Some(Instruction { op_code: OpCode::Sty, addr_mode: AddrMode::Zp }),
        0x85 => Some(Instruction { op_code: OpCode::Sta, addr_mode: AddrMode::Zp }),
        0x86 => Some(Instruction { op_code: OpCode::Stx, addr_mode: AddrMode::Zp }),
        0x88 => Some(Instruction { op_code: OpCode::Dey, addr_mode: AddrMode::Implicit }),
        0x8A => Some(Instruction { op_code: OpCode::Txa, addr_mode: AddrMode::Implicit }),
        0x8C => Some(Instruction { op_code: OpCode::Sty, addr_mode: AddrMode::Absolute }),
        0x8D => Some(Instruction { op_code: OpCode::Sta, addr_mode: AddrMode::Absolute }),
        0x8E => Some(Instruction { op_code: OpCode::Stx, addr_mode: AddrMode::Absolute }),
        0x90 => Some(Instruction { op_code: OpCode::Bcc, addr_mode: AddrMode::Relative }),
        0x91 => Some(Instruction { op_code: OpCode::Sta, addr_mode: AddrMode::IndirectY }),
        0x94 => Some(Instruction { op_code: OpCode::Sty, addr_mode: AddrMode::ZpX }),
        0x95 => Some(Instruction { op_code: OpCode::Sta, addr_mode: AddrMode::ZpX }),
        0x96 => Some(Instruction { op_code: OpCode::Stx, addr_mode: AddrMode::ZpY }),
        0x98 => Some(Instruction { op_code: OpCode::Tya, addr_mode: AddrMode::Implicit }),
        0x99 => Some(Instruction { op_code: OpCode::Sta, addr_mode: AddrMode::AbsoluteY }),
        0x9A => Some(Instruction { op_code: OpCode::Txs, addr_mode: AddrMode::Implicit }),
        0x9D => Some(Instruction { op_code: OpCode::Sta, addr_mode: AddrMode::AbsoluteX }),
        0xA0 => Some(Instruction { op_code: OpCode::Ldy, addr_mode: AddrMode::Immediate }),
        0xA1 => Some(Instruction { op_code: OpCode::Lda, addr_mode: AddrMode::IndirectX }),
        0xA2 => Some(Instruction { op_code: OpCode::Ldx, addr_mode: AddrMode::Immediate }),
        0xA4 => Some(Instruction { op_code: OpCode::Ldy, addr_mode: AddrMode::Zp }),
        0xA5 => Some(Instruction { op_code: OpCode::Lda, addr_mode: AddrMode::Zp }),
        0xA6 => Some(Instruction { op_code: OpCode::Ldx, addr_mode: AddrMode::Zp }),
        0xA8 => Some(Instruction { op_code: OpCode::Tay, addr_mode: AddrMode::Implicit }),
        0xA9 => Some(Instruction { op_code: OpCode::Lda, addr_mode: AddrMode::Immediate }),
        0xAA => Some(Instruction { op_code: OpCode::Tax, addr_mode: AddrMode::Implicit }),
        0xAC => Some(Instruction { op_code: OpCode::Ldy, addr_mode: AddrMode::Absolute }),
        0xAD => Some(Instruction { op_code: OpCode::Lda, addr_mode: AddrMode::Absolute }),
        0xAE => Some(Instruction { op_code: OpCode::Ldx, addr_mode: AddrMode::Absolute }),
        0xB0 => Some(Instruction { op_code: OpCode::Bcs, addr_mode: AddrMode::Relative }),
        0xB1 => Some(Instruction { op_code: OpCode::Lda, addr_mode: AddrMode::IndirectY }),
        0xB4 => Some(Instruction { op_code: OpCode::Ldy, addr_mode: AddrMode::ZpX }),
        0xB5 => Some(Instruction { op_code: OpCode::Lda, addr_mode: AddrMode::ZpX }),
        0xB6 => Some(Instruction { op_code: OpCode::Ldx, addr_mode: AddrMode::ZpY }),
        0xB8 => Some(Instruction { op_code: OpCode::Clv, addr_mode: AddrMode::Implicit }),
        0xB9 => Some(Instruction { op_code: OpCode::Lda, addr_mode: AddrMode::AbsoluteY }),
        0xBA => Some(Instruction { op_code: OpCode::Tsx, addr_mode: AddrMode::Implicit }),
        0xBC => Some(Instruction { op_code: OpCode::Ldy, addr_mode: AddrMode::AbsoluteX }),
        0xBD => Some(Instruction { op_code: OpCode::Lda, addr_mode: AddrMode::AbsoluteX }),
        0xBE => Some(Instruction { op_code: OpCode::Ldx, addr_mode: AddrMode::AbsoluteY }),
        0xC0 => Some(Instruction { op_code: OpCode::Cpy, addr_mode: AddrMode::Immediate }),
        0xC1 => Some(Instruction { op_code: OpCode::Cmp, addr_mode: AddrMode::IndirectX }),
        0xC4 => Some(Instruction { op_code: OpCode::Cpy, addr_mode: AddrMode::Zp }),
        0xC5 => Some(Instruction { op_code: OpCode::Cmp, addr_mode: AddrMode::Zp }),
        0xC6 => Some(Instruction { op_code: OpCode::Dec, addr_mode: AddrMode::Zp }),
        0xC8 => Some(Instruction { op_code: OpCode::Iny, addr_mode: AddrMode::Implicit }),
        0xC9 => Some(Instruction { op_code: OpCode::Cmp, addr_mode: AddrMode::Immediate }),
        0xCA => Some(Instruction { op_code: OpCode::Dex, addr_mode: AddrMode::Implicit }),
        0xCC => Some(Instruction { op_code: OpCode::Cpy, addr_mode: AddrMode::Absolute }),
        0xCD => Some(Instruction { op_code: OpCode::Cmp, addr_mode: AddrMode::Absolute }),
        0xCE => Some(Instruction { op_code: OpCode::Dec, addr_mode: AddrMode::Absolute }),
        0xD0 => Some(Instruction { op_code: OpCode::Bne, addr_mode: AddrMode::Relative }),
        0xD1 => Some(Instruction { op_code: OpCode::Cmp, addr_mode: AddrMode::IndirectY }),
        0xD5 => Some(Instruction { op_code: OpCode::Cmp, addr_mode: AddrMode::ZpX }),
        0xD6 => Some(Instruction { op_code: OpCode::Dec, addr_mode: AddrMode::ZpX }),
        0xD8 => Some(Instruction { op_code: OpCode::Cld, addr_mode: AddrMode::Implicit }),
        0xD9 => Some(Instruction { op_code: OpCode::Cmp, addr_mode: AddrMode::AbsoluteY }),
        0xDD => Some(Instruction { op_code: OpCode::Cmp, addr_mode: AddrMode::AbsoluteX }),
        0xDE => Some(Instruction { op_code: OpCode::Dec, addr_mode: AddrMode::AbsoluteX }),
        0xE0 => Some(Instruction { op_code: OpCode::Cpx, addr_mode: AddrMode::Immediate }),
        0xE1 => Some(Instruction { op_code: OpCode::Sbc, addr_mode: AddrMode::IndirectX }),
        0xE4 => Some(Instruction { op_code: OpCode::Cpx, addr_mode: AddrMode::Zp }),
        0xE5 => Some(Instruction { op_code: OpCode::Sbc, addr_mode: AddrMode::Zp }),
        0xE6 => Some(Instruction { op_code: OpCode::Inc, addr_mode: AddrMode::Zp }),
        0xE8 => Some(Instruction { op_code: OpCode::Inx, addr_mode: AddrMode::Implicit }),
        0xE9 => Some(Instruction { op_code: OpCode::Sbc, addr_mode: AddrMode::Immediate }),
        0xEA => Some(Instruction { op_code: OpCode::Nop, addr_mode: AddrMode::Implicit }),
        0xEC => Some(Instruction { op_code: OpCode::Cpx, addr_mode: AddrMode::Absolute }),
        0xED => Some(Instruction { op_code: OpCode::Sbc, addr_mode: AddrMode::Absolute }),
        0xEE => Some(Instruction { op_code: OpCode::Inc, addr_mode: AddrMode::Absolute }),
        0xF0 => Some(Instruction { op_code: OpCode::Beq, addr_mode: AddrMode::Relative }),
        0xF1 => Some(Instruction { op_code: OpCode::Sbc, addr_mode: AddrMode::IndirectY }),
        0xF5 => Some(Instruction { op_code: OpCode::Sbc, addr_mode: AddrMode::ZpX }),
        0xF6 => Some(Instruction { op_code: OpCode::Inc, addr_mode: AddrMode::ZpX }),
        0xF8 => Some(Instruction { op_code: OpCode::Sed, addr_mode: AddrMode::Implicit }),
        0xF9 => Some(Instruction { op_code: OpCode::Sbc, addr_mode: AddrMode::AbsoluteY }),
        0xFD => Some(Instruction { op_code: OpCode::Sbc, addr_mode: AddrMode::AbsoluteX }),
        0xFE => Some(Instruction { op_code: OpCode::Inc, addr_mode: AddrMode::AbsoluteX }),

        _ => None,
    }
}

/// The number of bytes an instruction in this mode occupies, opcode included.
pub open spec fn byte_len(mode: AddrMode) -> u16 {
    match mode {
        AddrMode::Implicit | AddrMode::Accumulator => 1,
        AddrMode::Absolute | AddrMode::AbsoluteX | AddrMode::AbsoluteY | AddrMode::Indirect => 3,
        _ => 2,
    }
}

/// Mnemonics that read one operand byte and leave memory alone.
pub open spec fn is_read_op(op: OpCode) -> bool {
    match op {
        OpCode::Adc | OpCode::And | OpCode::Bit | OpCode::Cmp | OpCode::Cpx | OpCode::Cpy
        | OpCode::Eor | OpCode::Lda | OpCode::Ldx | OpCode::Ldy | OpCode::Ora | OpCode::Sbc => true,
        _ => false,
    }
}

/// Mnemonics that store a register to memory.
pub open spec fn is_store_op(op: OpCode) -> bool {
    match op {
        OpCode::Sta | OpCode::Stx | OpCode::Sty => true,
        _ => false,
    }
}

/// Mnemonics that read a value, change it, and write it back.
pub open spec fn is_rmw_op(op: OpCode) -> bool {
    match op {
        OpCode::Asl | OpCode::Lsr | OpCode::Rol | OpCode::Ror | OpCode::Inc | OpCode::Dec => true,
        _ => false,
    }
}

/// Base cycle cost of an instruction, before page-cross and branch penalties.
pub open spec fn base_cycles(ins: Instruction) -> u8 {
    let op = ins.op_code;
    let mode = ins.addr_mode;
    if is_read_op(op) {
        match mode {
            AddrMode::Immediate => 2,
            AddrMode::Zp => 3,
            AddrMode::IndirectX => 6,
            AddrMode::IndirectY => 5,
            _ => 4,
        }
    } else if is_store_op(op) {
        match mode {
            AddrMode::Zp => 3,
            AddrMode::ZpX | AddrMode::ZpY | AddrMode::Absolute => 4,
            AddrMode::AbsoluteX | AddrMode::AbsoluteY => 5,
            _ => 6,
        }
    } else if is_rmw_op(op) {
        match mode {
            AddrMode::Accumulator => 2,
            AddrMode::Zp => 5,
            AddrMode::AbsoluteX => 7,
            _ => 6,
        }
    } else {
        match op {
            OpCode::Brk => 7,
            OpCode::Pha | OpCode::Php => 3,
            OpCode::Pla | OpCode::Plp => 4,
            OpCode::Rti | OpCode::Rts | OpCode::Jsr => 6,
            OpCode::Jmp => if mode == AddrMode::Indirect { 5 } else { 3 },
            _ => 2,
        }
    }
}

/// The assembler name of a mnemonic.
pub open spec fn mnemonic_text(op: OpCode) -> Seq<char> {
    match op {
        OpCode::Adc => "ADC"@,
        OpCode::And => "AND"@,
        OpCode::Asl => "ASL"@,
        OpCode::Bcc => "BCC"@,
        OpCode::Bcs => "BCS"@,
        OpCode::Beq => "BEQ"@,
        OpCode::Bit => "BIT"@,
        OpCode::Bmi => "BMI"@,
        OpCode::Bne => "BNE"@,
        OpCode::Bpl => "BPL"@,
        OpCode::Brk => "BRK"@,
        OpCode::Bvc => "BVC"@,
        OpCode::Bvs => "BVS"@,
        OpCode::Clc => "CLC"@,
        OpCode::Cld => "CLD"@,
        OpCode::Cli => "CLI"@,
        OpCode::Clv => "CLV"@,
        OpCode::Cmp => "CMP"@,
        OpCode::Cpx => "CPX"@,
        OpCode::Cpy => "CPY"@,
        OpCode::Dec => "DEC"@,
        OpCode::Dex => "DEX"@,
        OpCode::Dey => "DEY"@,
        OpCode::Eor => "EOR"@,
        OpCode::Inc => "INC"@,
        OpCode::Inx => "INX"@,
        OpCode::Iny => "INY"@,
        OpCode::Jmp => "JMP"@,
        OpCode::Jsr => "JSR"@,
        OpCode::Lda => "LDA"@,
        OpCode::Ldx => "LDX"@,
        OpCode::Ldy => "LDY"@,
        OpCode::Lsr => "LSR"@,
        OpCode::Nop => "NOP"@,
        OpCode::Ora => "ORA"@,
        OpCode::Pha => "PHA"@,
        OpCode::Php => "PHP"@,
        OpCode::Pla => "PLA"@,
        OpCode::Plp => "PLP"@,
        OpCode::Rol => "ROL"@,
        OpCode::Ror => "ROR"@,
        OpCode::Rti => "RTI"@,
        OpCode::Rts => "RTS"@,
        OpCode::Sbc => "SBC"@,
        OpCode::Sec => "SEC"@,
        OpCode::Sed => "SED"@,
        OpCode::Sei => "SEI"@,
        OpCode::Sta => "STA"@,
        OpCode::Stx => "STX"@,
        OpCode::Sty => "STY"@,
        OpCode::Tax => "TAX"@,
        OpCode::Tay => "TAY"@,
        OpCode::Tsx => "TSX"@,
        OpCode::Txa => "TXA"@,
        OpCode::Txs => "TXS"@,
        OpCode::Tya => "TYA"@,
    }
}

/// A readable name of an addressing mode.
pub open spec fn mode_text(mode: AddrMode) -> Seq<char> {
    match mode {
        AddrMode::Implicit => "Implicit"@,
        AddrMode::Accumulator => "Accumulator"@,
        AddrMode::Immediate => "Immediate"@,
        AddrMode::Zp => "Zero page"@,
        AddrMode::ZpX => "Zero page X"@,
        AddrMode::ZpY => "Zero page Y"@,
        AddrMode::Relative => "Relative"@,
        AddrMode::Absolute => "Absolute"@,
        AddrMode::AbsoluteX => "Absolute X"@,
        AddrMode::AbsoluteY => "Absolute Y"@,
        AddrMode::Indirect => "Indirect"@,
        AddrMode::IndirectX => "Indirect X"@,
        AddrMode::IndirectY => "Indirect Y"@,
    }
}

impl OpCode {
    /// The assembler name, e.g. "LDA".
    pub fn to_string(&self) -> (r: &'static str)
        ensures
            r@ == mnemonic_text(*self),
    {
        match self {
            OpCode::Adc => "ADC",
            OpCode::And => "AND",
            OpCode::Asl => "ASL",
            OpCode::Bcc => "BCC",
            OpCode::Bcs => "BCS",
            OpCode::Beq => "BEQ",
            OpCode::Bit => "BIT",
            OpCode::Bmi => "BMI",
            OpCode::Bne => "BNE",
            OpCode::Bpl => "BPL",
            OpCode::Brk => "BRK",
            OpCode::Bvc => "BVC",
            OpCode::Bvs => "BVS",
            OpCode::Clc => "CLC",
            OpCode::Cld => "CLD",
            OpCode::Cli => "CLI",
            OpCode::Clv => "CLV",
            OpCode::Cmp => "CMP",
            OpCode::Cpx => "CPX",
            OpCode::Cpy => "CPY",
            OpCode::Dec => "DEC",
            OpCode::Dex => "DEX",
            OpCode::Dey => "DEY",
            OpCode::Eor => "EOR",
            OpCode::Inc => "INC",
            OpCode::Inx => "INX",
            OpCode::Iny => "INY",
            OpCode::Jmp => "JMP",
            OpCode::Jsr => "JSR",
            OpCode::Lda => "LDA",
            OpCode::Ldx => "LDX",
            OpCode::Ldy => "LDY",
            OpCode::Lsr => "LSR",
            OpCode::Nop => "NOP",
            OpCode::Ora => "ORA",
            OpCode::Pha => "PHA",
            OpCode::Php => "PHP",
            OpCode::Pla => "PLA",
            OpCode::Plp => "PLP",
            OpCode::Rol => "ROL",
            OpCode::Ror => "ROR",
            OpCode::Rti => "RTI",
            OpCode::Rts => "RTS",
            OpCode::Sbc => "SBC",
            OpCode::Sec => "SEC",
            OpCode::Sed => "SED",
            OpCode::Sei => "SEI",
            OpCode::Sta => "STA",
            OpCode::Stx => "STX",
            OpCode::Sty => "STY",
            OpCode::Tax => "TAX",
            OpCode::Tay => "TAY",
            OpCode::Tsx => "TSX",
            OpCode::Txa => "TXA",
            OpCode::Txs => "TXS",
            OpCode::Tya => "TYA",
        }
    }
}

impl AddrMode {
    /// A readable name, e.g. "Zero page X".
    pub fn to_string(&self) -> (r: &'static str)
        ensures
            r@ == mode_text(*self),
    {
        match self {
            AddrMode::Implicit => "Implicit",
            AddrMode::Accumulator => "Accumulator",
            AddrMode::Immediate => "Immediate",
            AddrMode::Zp => "Zero page",
            AddrMode::ZpX => "Zero page X",
            AddrMode::ZpY => "Zero page Y",
            AddrMode::Relative => "Relative",
            AddrMode::Absolute => "Absolute",
            AddrMode::AbsoluteX => "Absolute X",
            AddrMode::AbsoluteY => "Absolute Y",
            AddrMode::Indirect => "Indirect",
            AddrMode::IndirectX => "Indirect X",
            AddrMode::IndirectY => "Indirect Y",
        }
    }
}

impl AddrMode {
    /// Byte length of an instruction in this mode.
    pub fn size(&self) -> (r: u16)
        ensures
            r == byte_len(*self),
    {
        match self {
            AddrMode::Implicit | AddrMode::Accumulator => 1,
            AddrMode::Absolute | AddrMode::AbsoluteX | AddrMode::AbsoluteY | AddrMode::Indirect => 3,
            _ => 2,
        }
    }
}

impl OpCode {
    pub fn is_read(&self) -> (r: bool)
        ensures
            r == is_read_op(*self),
    {
        match self {
            OpCode::Adc | OpCode::And | OpCode::Bit | OpCode::Cmp | OpCode::Cpx | OpCode::Cpy
            | OpCode::Eor | OpCode::Lda | OpCode::Ldx | OpCode::Ldy | OpCode::Ora | OpCode::Sbc => true,
            _ => false,
        }
    }

    pub fn is_store(&self) -> (r: bool)
        ensures
            r == is_store_op(*self),
    {
        match self {
            OpCode::Sta | OpCode::Stx | OpCode::Sty => true,
            _ => false,
        }
    }

    pub fn is_rmw(&self) -> (r: bool)
        ensures
            r == is_rmw_op(*self),
    {
        match self {
            OpCode::Asl | OpCode::Lsr | OpCode::Rol | OpCode::Ror | OpCode::Inc | OpCode::Dec => true,
            _ => false,
        }
    }
}

impl OpCode {
    pub fn is_branch(&self) -> (r: bool)
        ensures
            r == crate::semantics::is_branch_op(*self),
    {
        match self {
            OpCode::Bcc | OpCode::Bcs | OpCode::Beq | OpCode::Bne | OpCode::Bmi | OpCode::Bpl
            | OpCode::Bvc | OpCode::Bvs => true,
            _ => false,
        }
    }

    pub fn is_jump(&self) -> (r: bool)
        ensures
            r == crate::semantics::is_jump_op(*self),
    {
        match self {
            OpCode::Jmp | OpCode::Jsr | OpCode::Rts | OpCode::Rti | OpCode::Brk => true,
            _ => false,
        }
    }

    pub fn is_stack(&self) -> (r: bool)
        ensures
            r == crate::semantics::is_stack_op(*self),
    {
        match self {
            OpCode::Pha | OpCode::Php | OpCode::Pla | OpCode::Plp => true,
            _ => false,
        }
    }
}

impl Instruction {
    /// Decodes an opcode byte.
    pub fn get(op_code: u8) -> (r: Option<Instruction>)
        ensures
            r == decode(op_code),
    {
        match op_code {
            0x00 => Some(Instruction { op_code: OpCode::Brk, addr_mode: AddrMode::Implicit }),
            0x01 => Some(Instruction { op_code: OpCode::Ora, addr_mode: AddrMode::IndirectX }),
            0x05 => Some(Instruction { op_code: OpCode::Ora, addr_mode: AddrMode::Zp }),
            0x06 => Some(Instruction { op_code: OpCode::Asl, addr_mode: AddrMode::Zp }),
            0x08 => Some(Instruction { op_code: OpCode::Php, addr_mode: AddrMode::Implicit }),
            0x09 => Some(Instruction { op_code: OpCode::Ora, addr_mode: AddrMode::Immediate }),
            0x0A => Some(Instruction { op_code: OpCode::Asl, addr_mode: AddrMode::Accumulator }),
            0x0D => Some(Instruction { op_code: OpCode::Ora, addr_mode: AddrMode::Absolute }),
            0x0E => Some(Instruction { op_code: OpCode::Asl, addr_mode: AddrMode::Absolute }),
            0x10 => Some(Instruction { op_code: OpCode::Bpl, addr_mode: AddrMode::Relative }),
            0x11 => Some(Instruction { op_code: OpCode::Ora, addr_mode: AddrMode::IndirectY }),
            0x15 => Some(Instruction { op_code: OpCode::Ora, addr_mode: AddrMode::ZpX }),
            0x16 => Some(Instruction { op_code: OpCode::Asl, addr_mode: AddrMode::ZpX }),
            0x18 => Some(Instruction { op_code: OpCode::Clc, addr_mode: AddrMode::Implicit }),
            0x19 => Some(Instruction { op_code: OpCode::Ora, addr_mode: AddrMode::AbsoluteY }),
            0x1D => Some(Instruction { op_code: OpCode::Ora, addr_mode: AddrMode::AbsoluteX }),
            0x1E => Some(Instruction { op_code: OpCode::Asl, addr_mode: AddrMode::AbsoluteX }),
            0x20 => Some(Instruction { op_code: OpCode::Jsr, addr_mode: AddrMode::Absolute }),
            0x21 => Some(Instruction { op_code: OpCode::And, addr_mode: AddrMode::IndirectX }),
            0x24 => Some(Instruction { op_code: OpCode::Bit, addr_mode: AddrMode::Zp }),
            0x25 => Some(Instruction { op_code: OpCode::And, addr_mode: AddrMode::Zp }),
            0x26 => Some(Instruction { op_code: OpCode::Rol, addr_mode: AddrMode::Zp }),
            0x28 => Some(Instruction { op_code: OpCode::Plp, addr_mode: AddrMode::Implicit }),
            0x29 => Some(Instruction { op_code: OpCode::And, addr_mode: AddrMode::Immediate }),
            0x2A => Some(Instruction { op_code: OpCode::Rol, addr_mode: AddrMode::Accumulator }),
            0x2C => Some(Instruction { op_code: OpCode::Bit, addr_mode: AddrMode::Absolute }),
            0x2D => Some(Instruction { op_code: OpCode::And, addr_mode: AddrMode::Absolute }),
            0x2E => Some(Instruction { op_code: OpCode::Rol, addr_mode: AddrMode::Absolute }),
            0x30 => Some(Instruction { op_code: OpCode::Bmi, addr_mode: AddrMode::Relative }),
            0x31 => Some(Instruction { op_code: OpCode::And, addr_mode: AddrMode::IndirectY }),
            0x35 => Some(Instruction { op_code: OpCode::And, addr_mode: AddrMode::ZpX }),
            0x36 => Some(Instruction { op_code: OpCode::Rol, addr_mode: AddrMode::ZpX }),
            0x38 => Some(Instruction { op_code: OpCode::Sec, addr_mode: AddrMode::Implicit }),
            0x39 => Some(Instruction { op_code: OpCode::And, addr_mode: AddrMode::AbsoluteY }),
            0x3D => Some(Instruction { op_code: OpCode::And, addr_mode: AddrMode::AbsoluteX }),
            0x3E => Some(Instruction { op_code: OpCode::Rol, addr_mode: AddrMode::AbsoluteX }),
            0x40 => Some(Instruction { op_code: OpCode::Rti, addr_mode: AddrMode::Implicit }),
            0x41 => Some(Instruction { op_code: OpCode::Eor, addr_mode: AddrMode::IndirectX }),
            0x45 => Some(Instruction { op_code: OpCode::Eor, addr_mode: AddrMode::Zp }),
            0x46 => Some(Instruction { op_code: OpCode::Lsr, addr_mode: AddrMode::Zp }),
            0x48 => Some(Instruction { op_code: OpCode::Pha, addr_mode: AddrMode::Implicit }),
            0x49 => Some(Instruction { op_code: OpCode::Eor, addr_mode: AddrMode::Immediate }),
            0x4A => Some(Instruction { op_code: OpCode::Lsr, addr_mode: AddrMode::Accumulator }),
            0x4C => Some(Instruction { op_code: OpCode::Jmp, addr_mode: AddrMode::Absolute }),
            0x4D => Some(Instruction { op_code: OpCode::Eor, addr_mode: AddrMode::Absolute }),
            0x4E => Some(Instruction { op_code: OpCode::Lsr, addr_mode: AddrMode::Absolute }),
            0x50 => Some(Instruction { op_code: OpCode::Bvc, addr_mode: AddrMode::Relative }),
            0x51 => Some(Instruction { op_code: OpCode::Eor, addr_mode: AddrMode::IndirectY }),
            0x55 => Some(Instruction { op_code: OpCode::Eor, addr_mode: AddrMode::ZpX }),
            0x56 => Some(Instruction { op_code: OpCode::Lsr, addr_mode: AddrMode::ZpX }),
            0x58 => Some(Instruction { op_code: OpCode::Cli, addr_mode: AddrMode::Implicit }),
            0x59 => Some(Instruction { op_code: OpCode::Eor, addr_mode: AddrMode::AbsoluteY }),
            0x5D => Some(Instruction { op_code: OpCode::Eor, addr_mode: AddrMode::AbsoluteX }),
            0x5E => Some(Instruction { op_code: OpCode::Lsr, addr_mode: AddrMode::AbsoluteX }),
            0x60 => Some(Instruction { op_code: OpCode::Rts, addr_mode: AddrMode::Implicit }),
            0x61 => Some(Instruction { op_code: OpCode::Adc, addr_mode: AddrMode::IndirectX }),
            0x65 => Some(Instruction { op_code: OpCode::Adc, addr_mode: AddrMode::Zp }),
            0x66 => Some(Instruction { op_code: OpCode::Ror, addr_mode: AddrMode::Zp }),
            0x68 => Some(Instruction { op_code: OpCode::Pla, addr_mode: AddrMode::Implicit }),
            0x69 => Some(Instruction { op_code: OpCode::Adc, addr_mode: AddrMode::Immediate }),
            0x6A => Some(Instruction { op_code: OpCode::Ror, addr_mode: AddrMode::Accumulator }),
            0x6C => Some(Instruction { op_code: OpCode::Jmp, addr_mode: AddrMode::Indirect }),
            0x6D => Some(Instruction { op_code: OpCode::Adc, addr_mode: AddrMode::Absolute }),
            0x6E => Some(Instruction { op_code: OpCode::Ror, addr_mode: AddrMode::Absolute }),
            0x70 => Some(Instruction { op_code: OpCode::Bvs, addr_mode: AddrMode::Relative }),
            0x71 => Some(Instruction { op_code: OpCode::Adc, addr_mode: AddrMode::IndirectY }),
            0x75 => Some(Instruction { op_code: OpCode::Adc, addr_mode: AddrMode::ZpX }),
            0x76 => Some(Instruction { op_code: OpCode::Ror, addr_mode: AddrMode::ZpX }),
            0x78 => Some(Instruction { op_code: OpCode::Sei, addr_mode: AddrMode::Implicit }),
            0x79 => Some(Instruction { op_code: OpCode::Adc, addr_mode: AddrMode::AbsoluteY }),
            0x7D => Some(Instruction { op_code: OpCode::Adc, addr_mode: AddrMode::AbsoluteX }),
            0x7E => Some(Instruction { op_code: OpCode::Ror, addr_mode: AddrMode::AbsoluteX }),
            0x81 => Some(Instruction { op_code: OpCode::Sta, addr_mode: AddrMode::IndirectX }),
            0x84 => Some(Instruction { op_code: OpCode::Sty, addr_mode: AddrMode::Zp }),
            0x85 => Some(Instruction { op_code: OpCode::Sta, addr_mode: AddrMode::Zp }),
            0x86 => Some(Instruction { op_code: OpCode::Stx, addr_mode: AddrMode::Zp }),
            0x88 => Some(Instruction { op_code: OpCode::Dey, addr_mode: AddrMode::Implicit }),
            0x8A => Some(Instruction { op_code: OpCode::Txa, addr_mode: AddrMode::Implicit }),
            0x8C => Some(Instruction { op_code: OpCode::Sty, addr_mode: AddrMode::Absolute }),
            0x8D => Some(Instruction { op_code: OpCode::Sta, addr_mode: AddrMode::Absolute }),
            0x8E => Some(Instruction { op_code: OpCode::Stx, addr_mode: AddrMode::Absolute }),
            0x90 => Some(Instruction { op_code: OpCode::Bcc, addr_mode: AddrMode::Relative }),
            0x91 => Some(Instruction { op_code: OpCode::Sta, addr_mode: AddrMode::IndirectY }),
            0x94 => Some(Instruction { op_code: OpCode::Sty, addr_mode: AddrMode::ZpX }),
            0x95 => Some(Instruction { op_code: OpCode::Sta, addr_mode: AddrMode::ZpX }),
            0x96 => Some(Instruction { op_code: OpCode::Stx, addr_mode: AddrMode::ZpY }),
            0x98 => Some(Instruction { op_code: OpCode::Tya, addr_mode: AddrMode::Implicit }),
            0x99 => Some(Instruction { op_code: OpCode::Sta, addr_mode: AddrMode::AbsoluteY }),
            0x9A => Some(Instruction { op_code: OpCode::Txs, addr_mode: AddrMode::Implicit }),
            0x9D => Some(Instruction { op_code: OpCode::Sta, addr_mode: AddrMode::AbsoluteX }),
            0xA0 => Some(Instruction { op_code: OpCode::Ldy, addr_mode: AddrMode::Immediate }),
            0xA1 => Some(Instruction { op_code: OpCode::Lda, addr_mode: AddrMode::IndirectX }),
            0xA2 => Some(Instruction { op_code: OpCode::Ldx, addr_mode: AddrMode::Immediate }),
            0xA4 => Some(Instruction { op_code: OpCode::Ldy, addr_mode: AddrMode::Zp }),
            0xA5 => Some(Instruction { op_code: OpCode::Lda, addr_mode: AddrMode::Zp }),
            0xA6 => Some(Instruction { op_code: OpCode::Ldx, addr_mode: AddrMode::Zp }),
            0xA8 => Some(Instruction { op_code: OpCode::Tay, addr_mode: AddrMode::Implicit }),
            0xA9 => Some(Instruction { op_code: OpCode::Lda, addr_mode: AddrMode::Immediate }),
            0xAA => Some(Instruction { op_code: OpCode::Tax, addr_mode: AddrMode::Implicit }),
            0xAC => Some(Instruction { op_code: OpCode::Ldy, addr_mode: AddrMode::Absolute }),
            0xAD => Some(Instruction { op_code: OpCode::Lda, addr_mode: AddrMode::Absolute }),
            0xAE => Some(Instruction { op_code: OpCode::Ldx, addr_mode: AddrMode::Absolute }),
            0xB0 => Some(Instruction { op_code: OpCode::Bcs, addr_mode: AddrMode::Relative }),
            0xB1 => Some(Instruction { op_code: OpCode::Lda, addr_mode: AddrMode::IndirectY }),
            0xB4 => Some(Instruction { op_code: OpCode::Ldy, addr_mode: AddrMode::ZpX }),
            0xB5 => Some(Instruction { op_code: OpCode::Lda, addr_mode: AddrMode::ZpX }),
            0xB6 => Some(Instruction { op_code: OpCode::Ldx, addr_mode: AddrMode::ZpY }),
            0xB8 => Some(Instruction { op_code: OpCode::Clv, addr_mode: AddrMode::Implicit }),
            0xB9 => Some(Instruction { op_code: OpCode::Lda, addr_mode: AddrMode::AbsoluteY }),
            0xBA => Some(Instruction { op_code: OpCode::Tsx, addr_mode: AddrMode::Implicit }),
            0xBC => Some(Instruction { op_code: OpCode::Ldy, addr_mode: AddrMode::AbsoluteX }),
            0xBD => Some(Instruction { op_code: OpCode::Lda, addr_mode: AddrMode::AbsoluteX }),
            0xBE => Some(Instruction { op_code: OpCode::Ldx, addr_mode: AddrMode::AbsoluteY }),
            0xC0 => Some(Instruction { op_code: OpCode::Cpy, addr_mode: AddrMode::Immediate }),
            0xC1 => Some(Instruction { op_code: OpCode::Cmp, addr_mode: AddrMode::IndirectX }),
            0xC4 => Some(Instruction { op_code: OpCode::Cpy, addr_mode: AddrMode::Zp }),
            0xC5 => Some(Instruction { op_code: OpCode::Cmp, addr_mode: AddrMode::Zp }),
            0xC6 => Some(Instruction { op_code: OpCode::Dec, addr_mode: AddrMode::Zp }),
            0xC8 => Some(Instruction { op_code: OpCode::Iny, addr_mode: AddrMode::Implicit }),
            0xC9 => Some(Instruction { op_code: OpCode::Cmp, addr_mode: AddrMode::Immediate }),
            0xCA => Some(Instruction { op_code: OpCode::Dex, addr_mode: AddrMode::Implicit }),
            0xCC => Some(Instruction { op_code: OpCode::Cpy, addr_mode: AddrMode::Absolute }),
            0xCD => Some(Instruction { op_code: OpCode::Cmp, addr_mode: AddrMode::Absolute }),
            0xCE => Some(Instruction { op_code: OpCode::Dec, addr_mode: AddrMode::Absolute }),
            0xD0 => Some(Instruction { op_code: OpCode::Bne, addr_mode: AddrMode::Relative }),
            0xD1 => Some(Instruction { op_code: OpCode::Cmp, addr_mode: AddrMode::IndirectY }),
            0xD5 => Some(Instruction { op_code: OpCode::Cmp, addr_mode: AddrMode::ZpX }),
            0xD6 => Some(Instruction { op_code: OpCode::Dec, addr_mode: AddrMode::ZpX }),
            0xD8 => Some(Instruction { op_code: OpCode::Cld, addr_mode: AddrMode::Implicit }),
            0xD9 => Some(Instruction { op_code: OpCode::Cmp, addr_mode: AddrMode::AbsoluteY }),
            0xDD => Some(Instruction { op_code: OpCode::Cmp, addr_mode: AddrMode::AbsoluteX }),
            0xDE => Some(Instruction { op_code: OpCode::Dec, addr_mode: AddrMode::AbsoluteX }),
            0xE0 => Some(Instruction { op_code: OpCode::Cpx, addr_mode: AddrMode::Immediate }),
            0xE1 => Some(Instruction { op_code: OpCode::Sbc, addr_mode: AddrMode::IndirectX }),
            0xE4 => Some(Instruction { op_code: OpCode::Cpx, addr_mode: AddrMode::Zp }),
            0xE5 => Some(Instruction { op_code: OpCode::Sbc, addr_mode: AddrMode::Zp }),
            0xE6 => Some(Instruction { op_code: OpCode::Inc, addr_mode: AddrMode::Zp }),
            0xE8 => Some(Instruction { op_code: OpCode::Inx, addr_mode: AddrMode::Implicit }),
            0xE9 => Some(Instruction { op_code: OpCode::Sbc, addr_mode: AddrMode::Immediate }),
            0xEA => Some(Instruction { op_code: OpCode::Nop, addr_mode: AddrMode::Implicit }),
            0xEC => Some(Instruction { op_code: OpCode::Cpx, addr_mode: AddrMode::Absolute }),
            0xED => Some(Instruction { op_code: OpCode::Sbc, addr_mode: AddrMode::Absolute }),
            0xEE => Some(Instruction { op_code: OpCode::Inc, addr_mode: AddrMode::Absolute }),
            0xF0 => Some(Instruction { op_code: OpCode::Beq, addr_mode: AddrMode::Relative }),
            0xF1 => Some(Instruction { op_code: OpCode::Sbc, addr_mode: AddrMode::IndirectY }),
            0xF5 => Some(Instruction { op_code: OpCode::Sbc, addr_mode: AddrMode::ZpX }),
            0xF6 => Some(Instruction { op_code: OpCode::Inc, addr_mode: AddrMode::ZpX }),
            0xF8 => Some(Instruction { op_code: OpCode::Sed, addr_mode: AddrMode::Implicit }),
            0xF9 => Some(Instruction { op_code: OpCode::Sbc, addr_mode: AddrMode::AbsoluteY }),
            0xFD => Some(Instruction { op_code: OpCode::Sbc, addr_mode: AddrMode::AbsoluteX }),
            0xFE => Some(Instruction { op_code: OpCode::Inc, addr_mode: AddrMode::AbsoluteX }),

            _ => None,
        }
    }

    /// Byte length of this instruction.
    pub fn size(&self) -> (r: u16)
        ensures
            r == byte_len(self.addr_mode),
    {
        self.addr_mode.size()
    }

    /// Base cycle cost of this instruction.
    pub fn cycles(&self) -> (r: u8)
        ensures
            r == base_cycles(*self),
            2 <= r <= 7,
    {
        let mode = self.addr_mode;
        if self.op_code.is_read() {
            match mode {
                AddrMode::Immediate => 2,
                AddrMode::Zp => 3,
                AddrMode::IndirectX => 6,
                AddrMode::IndirectY => 5,
                _ => 4,
            }
        } else if self.op_code.is_store() {
            match mode {
                AddrMode::Zp => 3,
                AddrMode::ZpX | AddrMode::ZpY | AddrMode::Absolute => 4,
                AddrMode::AbsoluteX | AddrMode::AbsoluteY => 5,
                _ => 6,
            }
        } else if self.op_code.is_rmw() {
            match mode {
                AddrMode::Accumulator => 2,
                AddrMode::Zp => 5,
                AddrMode::AbsoluteX => 7,
                _ => 6,
            }
        } else {
            match self.op_code {
                OpCode::Brk => 7,
                OpCode::Pha | OpCode::Php => 3,
                OpCode::Pla | OpCode::Plp => 4,
                OpCode::Rti | OpCode::Rts | OpCode::Jsr => 6,
                OpCode::Jmp => if mode == AddrMode::Indirect { 5 } else { 3 },
                _ => 2,
            }
        }
    }

    /// The opcode byte that encodes this instruction, if the table has one.
    pub fn mode(&self) -> (r: Option<u8>)
        ensures
            r matches Some(b) ==> decode(b) == Some(*self),
            r is None ==> forall|b: u8| decode(b) != Some(*self),
    {
        Instruction::test_mode(self.op_code, self.addr_mode)
    }

    /// The opcode byte for a mnemonic in an addressing mode, if the table has one.
    pub fn test_mode(op_code: OpCode, am: AddrMode) -> (r: Option<u8>)
        ensures
            r matches Some(b) ==> decode(b) == Some(Instruction { op_code, addr_mode: am }),
            r is None ==> forall|b: u8| decode(b) != Some(Instruction { op_code, addr_mode: am }),
    {
        match op_code_from_instruction(Instruction { op_code, addr_mode: am }) {
            Some(i) => Some(i as u8),
            None => None,
        }
    }
}

/// Position of an instruction in the decode table: the lowest opcode byte that decodes to it.
pub fn op_code_from_instruction(to_find: Instruction) -> (r: Option<usize>)
    ensures
        r matches Some(i) ==> i < 256 && decode(i as u8) == Some(to_find)
            && forall|j: u8| (j as usize) < i ==> decode(j) != Some(to_find),
        r is None ==> forall|b: u8| decode(b) != Some(to_find),
{
    let mut i: usize = 0;
    while i < 256
        invariant
            i <= 256,
            forall|j: u8| (j as usize) < i ==> decode(j) != Some(to_find),
        decreases 256 - i,
    {
        let found = Instruction::get(i as u8);
        if let Some(ins) = found {
            if ins.op_code == to_find.op_code && ins.addr_mode == to_find.addr_mode {
                return Some(i);
            }
        }
        i = i + 1;
    }
    None
}

} // verus!
