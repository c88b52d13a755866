//! What one CPU instruction does, as a function from machine state to machine state.
use crate::bus::{word, write_disabled, BusView};
use crate::opcodes::{
    base_cycles, byte_len, decode, is_read_op, is_rmw_op, is_store_op, AddrMode, Instruction, OpCode,
};
use crate::status::{flag, with_flag, with_nz, CARRY, DECIMAL, IRQ_DISABLE, NEGATIVE, OVERFLOW, ZERO};
use vstd::prelude::*;

verus! {

pub const STACK_BASE: u16 = 0x0100;
pub const RESET_VECTOR: u16 = 0xFFFC;
pub const IRQ_VECTOR: u16 = 0xFFFE;

/// Why the CPU cannot go on.
#[derive(Debug, Clone, Copy, PartialEq, Eq, Structural)]
pub enum Fault {
    /// The opcode byte at `pc` has no entry in the decode table.
    UnknownOpcode { pc: u16, opcode: u8 },
    /// The instruction at `pc` would write to the disabled test-mode range.
    DisabledWrite { pc: u16, addr: u16 },
}

/// The machine as the CPU sees it: registers, status byte, busy counter, bus.
pub struct CpuView {
    pub pc: u16,
    pub sp: u8,
    pub acc: u8,
    pub x: u8,
    pub y: u8,
    pub ps: u8,
    pub busy: u8,
    pub bus: BusView,
}

/// Whether two addresses lie on different 256-byte pages.
pub open spec fn page_crossed(a: u16, b: u16) -> bool {
    a / 256 != b / 256
}

/// Where a relative branch at `base` (the address after the instruction) with offset byte `off` lands.
pub open spec fn branch_target(base: u16, off: u8) -> u16 {
    if off < 128 {
        base.wrapping_add(off as u16)
    } else {
        base.wrapping_sub((256 - off) as u16)
    }
}

/// Sum of `a`, `m` and the carry: the result byte, the carry out, and signed overflow.
pub open spec fn add_with_carry(a: u8, m: u8, c: bool) -> (u8, bool, bool) {
    let sum = a + m + if c { 1int } else { 0int };
    let r = (sum % 256) as u8;
    (r, sum > 255, (a < 128) == (m < 128) && (r < 128) != (a < 128))
}

/// Status after comparing register value `reg` with `m`.
pub open spec fn compare(p: u8, reg: u8, m: u8) -> u8 {
    with_nz(with_flag(p, CARRY, reg >= m), reg.wrapping_sub(m))
}

/// Result and carry out of a shift or rotate of `v` with carry in `c`.
pub open spec fn shift(op: OpCode, v: u8, c: bool) -> (u8, bool) {
    match op {
        OpCode::Asl => (((v % 128) * 2) as u8, v >= 128),
        OpCode::Rol => (((v % 128) * 2 + if c { 1int } else { 0int }) as u8, v >= 128),
        OpCode::Lsr => (v / 2, v % 2 == 1),
        _ => ((v / 2 + if c { 128int } else { 0int }) as u8, v % 2 == 1),
    }
}

/// Result and status of a read-modify-write mnemonic applied to `v`.
pub open spec fn modify(op: OpCode, v: u8, p: u8) -> (u8, u8) {
    match op {
        OpCode::Inc => (v.wrapping_add(1), with_nz(p, v.wrapping_add(1))),
        OpCode::Dec => (v.wrapping_sub(1), with_nz(p, v.wrapping_sub(1))),
        _ => {
            let (r, c) = shift(op, v, flag(p, CARRY));
            (r, with_nz(with_flag(p, CARRY, c), r))
        },
    }
}

/// Whether a branch mnemonic's condition holds under status `p`.
pub open spec fn branch_taken(op: OpCode, p: u8) -> bool {
    match op {
        OpCode::Bcc => !flag(p, CARRY),
        OpCode::Bcs => flag(p, CARRY),
        OpCode::Beq => flag(p, ZERO),
        OpCode::Bne => !flag(p, ZERO),
        OpCode::Bmi => flag(p, NEGATIVE),
        OpCode::Bpl => !flag(p, NEGATIVE),
        OpCode::Bvc => !flag(p, OVERFLOW),
        _ => flag(p, OVERFLOW),
    }
}

/// The status byte that PLP and RTI install: six flags from the stack, bits 4 and 5 kept.
pub open spec fn pulled_status(p: u8, v: u8) -> u8 {
    (v & 0xCF) | (p & 0x30)
}

impl CpuView {
    pub open spec fn wf(self) -> bool {
        self.bus.wf()
    }

    /// A bus read: the value and the state after it.
    pub open spec fn rd(self, a: u16) -> (u8, CpuView) {
        (self.bus.read_value(a), CpuView { bus: self.bus.after_read(a), ..self })
    }

    /// A little-endian word read at `a`, low byte first.
    pub open spec fn rd16(self, a: u16) -> (u16, CpuView) {
        let (lo, s1) = self.rd(a);
        let (hi, s2) = s1.rd(a.wrapping_add(1));
        (word(lo, hi), s2)
    }

    /// A word read from the zero page; the high byte wraps within the page.
    pub open spec fn rd16_zp(self, p: u8) -> (u16, CpuView) {
        let (lo, s1) = self.rd(p as u16);
        let (hi, s2) = s1.rd(p.wrapping_add(1) as u16);
        (word(lo, hi), s2)
    }

    pub open spec fn wr(self, a: u16, v: u8) -> CpuView {
        CpuView { bus: self.bus.after_write(a, v), ..self }
    }

    /// Pushes `v` at 0x0100 + SP, then decrements SP.
    pub open spec fn push(self, v: u8) -> CpuView {
        CpuView { sp: self.sp.wrapping_sub(1), ..self.wr((STACK_BASE + self.sp) as u16, v) }
    }

    /// Increments SP, then reads at 0x0100 + SP.
    pub open spec fn pull(self) -> (u8, CpuView) {
        let sp = self.sp.wrapping_add(1);
        CpuView { sp, ..self }.rd((STACK_BASE + sp) as u16)
    }

    /// The address of the byte after the opcode.
    pub open spec fn arg(self) -> u16 {
        self.pc.wrapping_add(1)
    }

    pub open spec fn with_nz_of(self, r: u8) -> CpuView {
        CpuView { ps: with_nz(self.ps, r), ..self }
    }
}

/// The effective address of a memory operand, whether indexing crossed a page,
/// and the state after the reads that found it.
pub open spec fn resolve(s: CpuView, mode: AddrMode) -> (u16, bool, CpuView) {
    match mode {
        AddrMode::Zp => {
            let (b, s1) = s.rd(s.arg());
            (b as u16, false, s1)
        },
        AddrMode::ZpX => {
            let (b, s1) = s.rd(s.arg());
            (b.wrapping_add(s.x) as u16, false, s1)
        },
        AddrMode::ZpY => {
            let (b, s1) = s.rd(s.arg());
            (b.wrapping_add(s.y) as u16, false, s1)
        },
        AddrMode::Absolute => {
            let (w, s1) = s.rd16(s.arg());
            (w, false, s1)
        },
        AddrMode::AbsoluteX => {
            let (w, s1) = s.rd16(s.arg());
            let a = w.wrapping_add(s.x as u16);
            (a, page_crossed(w, a), s1)
        },
        AddrMode::AbsoluteY => {
            let (w, s1) = s.rd16(s.arg());
            let a = w.wrapping_add(s.y as u16);
            (a, page_crossed(w, a), s1)
        },
        AddrMode::Indirect => {
            let (p, s1) = s.rd16(s.arg());
            let (t, s2) = s1.rd16(p);
            (t, false, s2)
        },
        AddrMode::IndirectX => {
            let (b, s1) = s.rd(s.arg());
            let (w, s2) = s1.rd16_zp(b.wrapping_add(s.x));
            (w, false, s2)
        },
        AddrMode::IndirectY => {
            let (b, s1) = s.rd(s.arg());
            let (w, s2) = s1.rd16_zp(b);
            let a = w.wrapping_add(s.y as u16);
            (a, page_crossed(w, a), s2)
        },
        _ => (0, false, s),
    }
}

/// The operand value of a reading instruction, the page-cross flag, and the state after.
pub open spec fn operand(s: CpuView, mode: AddrMode) -> (u8, bool, CpuView) {
    match mode {
        AddrMode::Immediate => {
            let (v, s1) = s.rd(s.arg());
            (v, false, s1)
        },
        AddrMode::Accumulator => (s.acc, false, s),
        _ => {
            let (a, c, s1) = resolve(s, mode);
            let (v, s2) = s1.rd(a);
            (v, c, s2)
        },
    }
}

/// Registers and status after a reading mnemonic consumed operand `m`.
pub open spec fn apply_read(s: CpuView, op: OpCode, m: u8) -> CpuView {
    match op {
        OpCode::Lda => CpuView { acc: m, ..s }.with_nz_of(m),
        OpCode::Ldx => CpuView { x: m, ..s }.with_nz_of(m),
        OpCode::Ldy => CpuView { y: m, ..s }.with_nz_of(m),
        OpCode::And => CpuView { acc: s.acc & m, ..s }.with_nz_of(s.acc & m),
        OpCode::Ora => CpuView { acc: s.acc | m, ..s }.with_nz_of(s.acc | m),
        OpCode::Eor => CpuView { acc: s.acc ^ m, ..s }.with_nz_of(s.acc ^ m),
        OpCode::Adc | OpCode::Sbc => {
            let m2 = if op == OpCode::Adc { m } else { (255 - m) as u8 };
            let (r, c, v) = add_with_carry(s.acc, m2, flag(s.ps, CARRY));
            CpuView { acc: r, ps: with_flag(with_flag(s.ps, CARRY, c), OVERFLOW, v), ..s }.with_nz_of(r)
        },
        OpCode::Cmp => CpuView { ps: compare(s.ps, s.acc, m), ..s },
        OpCode::Cpx => CpuView { ps: compare(s.ps, s.x, m), ..s },
        OpCode::Cpy => CpuView { ps: compare(s.ps, s.y, m), ..s },
        _ => CpuView {
            ps: with_flag(
                with_flag(with_flag(s.ps, ZERO, s.acc & m == 0), NEGATIVE, m >= 128),
                OVERFLOW,
                m & 0x40 != 0,
            ),
            ..s
        },
    }
}

/// A reading instruction: the state after it, and its page-cross penalty.
pub open spec fn exec_read(s: CpuView, op: OpCode, mode: AddrMode) -> (CpuView, u8) {
    let (m, c, s1) = operand(s, mode);
    (
        CpuView { pc: s.pc.wrapping_add(byte_len(mode)), ..apply_read(s1, op, m) },
        if c { 1u8 } else { 0u8 },
    )
}

/// STA, STX, STY.
pub open spec fn exec_store(s: CpuView, op: OpCode, mode: AddrMode) -> Result<(CpuView, u8), Fault> {
    store_to(
        s,
        mode,
        match op {
            OpCode::Sta => s.acc,
            OpCode::Stx => s.x,
            _ => s.y,
        },
    )
}

/// Writes `v` to the effective address of `mode`.
pub open spec fn store_to(s: CpuView, mode: AddrMode, v: u8) -> Result<(CpuView, u8), Fault> {
    let (a, _c, s1) = resolve(s, mode);
    if write_disabled(a) {
        Err(Fault::DisabledWrite { pc: s.pc, addr: a })
    } else {
        Ok((CpuView { pc: s.pc.wrapping_add(byte_len(mode)), ..s1.wr(a, v) }, 0))
    }
}

/// ASL, LSR, ROL, ROR, INC, DEC on the accumulator or on memory.
pub open spec fn exec_rmw(s: CpuView, op: OpCode, mode: AddrMode) -> Result<(CpuView, u8), Fault> {
    let next = s.pc.wrapping_add(byte_len(mode));
    if mode == AddrMode::Accumulator {
        let (r, p) = modify(op, s.acc, s.ps);
        Ok((CpuView { acc: r, ps: p, pc: next, ..s }, 0))
    } else {
        let (a, _c, s1) = resolve(s, mode);
        if write_disabled(a) {
            Err(Fault::DisabledWrite { pc: s.pc, addr: a })
        } else {
            let (v, s2) = s1.rd(a);
            let (r, p) = modify(op, v, s.ps);
            Ok((CpuView { ps: p, pc: next, ..s2.wr(a, r) }, 0))
        }
    }
}

/// A conditional branch: taken costs one cycle more, two if it lands on another page.
pub open spec fn exec_branch(s: CpuView, op: OpCode) -> (CpuView, u8) {
    branch_if(s, branch_taken(op, s.ps))
}

/// A relative branch at PC that is taken exactly when `taken` holds.
pub open spec fn branch_if(s: CpuView, taken: bool) -> (CpuView, u8) {
    let (off, s1) = s.rd(s.arg());
    let base = s.pc.wrapping_add(2);
    if taken {
        let t = branch_target(base, off);
        (CpuView { pc: t, ..s1 }, if page_crossed(base, t) { 2u8 } else { 1u8 })
    } else {
        (CpuView { pc: base, ..s1 }, 0)
    }
}

/// Single-byte instructions that touch registers and flags only.
pub open spec fn exec_implied(s: CpuView, op: OpCode) -> CpuView {
    let t = CpuView { pc: s.pc.wrapping_add(1), ..s };
    match op {
        OpCode::Inx => CpuView { x: s.x.wrapping_add(1), ..t }.with_nz_of(s.x.wrapping_add(1)),
        OpCode::Iny => CpuView { y: s.y.wrapping_add(1), ..t }.with_nz_of(s.y.wrapping_add(1)),
        OpCode::Dex => CpuView { x: s.x.wrapping_sub(1), ..t }.with_nz_of(s.x.wrapping_sub(1)),
        OpCode::Dey => CpuView { y: s.y.wrapping_sub(1), ..t }.with_nz_of(s.y.wrapping_sub(1)),
        OpCode::Tax => CpuView { x: s.acc, ..t }.with_nz_of(s.acc),
        OpCode::Tay => CpuView { y: s.acc, ..t }.with_nz_of(s.acc),
        OpCode::Tsx => CpuView { x: s.sp, ..t }.with_nz_of(s.sp),
        OpCode::Txa => CpuView { acc: s.x, ..t }.with_nz_of(s.x),
        OpCode::Tya => CpuView { acc: s.y, ..t }.with_nz_of(s.y),
        OpCode::Txs => CpuView { sp: s.x, ..t },
        OpCode::Clc => CpuView { ps: with_flag(s.ps, CARRY, false), ..t },
        OpCode::Cld => CpuView { ps: with_flag(s.ps, DECIMAL, false), ..t },
        OpCode::Cli => CpuView { ps: with_flag(s.ps, IRQ_DISABLE, false), ..t },
        OpCode::Clv => CpuView { ps: with_flag(s.ps, OVERFLOW, false), ..t },
        OpCode::Sec => CpuView { ps: with_flag(s.ps, CARRY, true), ..t },
        OpCode::Sed => CpuView { ps: with_flag(s.ps, DECIMAL, true), ..t },
        OpCode::Sei => CpuView { ps: with_flag(s.ps, IRQ_DISABLE, true), ..t },
        _ => t,
    }
}

/// PHA, PHP, PLA, PLP.
pub open spec fn exec_stack(s: CpuView, op: OpCode) -> CpuView {
    let next = s.pc.wrapping_add(1);
    match op {
        OpCode::Pha => CpuView { pc: next, ..s.push(s.acc) },
        OpCode::Php => CpuView { pc: next, ..s.push(s.ps) },
        OpCode::Pla => {
            let (v, s1) = s.pull();
            CpuView { acc: v, pc: next, ..s1 }.with_nz_of(v)
        },
        _ => {
            let (v, s1) = s.pull();
            CpuView { ps: pulled_status(s.ps, v), pc: next, ..s1 }
        },
    }
}

/// JMP, JSR, RTS, RTI, BRK.
pub open spec fn exec_jump(s: CpuView, op: OpCode, mode: AddrMode) -> CpuView {
    let ret = s.pc.wrapping_add(2);
    match op {
        OpCode::Jmp => {
            let (t, _c, s1) = resolve(s, mode);
            CpuView { pc: t, ..s1 }
        },
        OpCode::Jsr => {
            let (t, s1) = s.rd16(s.arg());
            let s2 = s1.push((ret / 256) as u8).push((ret % 256) as u8);
            CpuView { pc: t, ..s2 }
        },
        OpCode::Rts => {
            let (lo, s1) = s.pull();
            let (hi, s2) = s1.pull();
            CpuView { pc: word(lo, hi).wrapping_add(1), ..s2 }
        },
        OpCode::Rti => {
            let (p, s1) = s.pull();
            let (lo, s2) = s1.pull();
            let (hi, s3) = s2.pull();
            CpuView { ps: pulled_status(s.ps, p), pc: word(lo, hi), ..s3 }
        },
        _ => {
            let p = s.ps | 0x10;
            let s1 = s.push((ret / 256) as u8).push((ret % 256) as u8).push(p);
            let (t, s2) = s1.rd16(IRQ_VECTOR);
            CpuView { ps: p | 0x04, pc: t, ..s2 }
        },
    }
}

pub open spec fn is_branch_op(op: OpCode) -> bool {
    match op {
        OpCode::Bcc | OpCode::Bcs | OpCode::Beq | OpCode::Bne | OpCode::Bmi | OpCode::Bpl
        | OpCode::Bvc | OpCode::Bvs => true,
        _ => false,
    }
}

pub open spec fn is_jump_op(op: OpCode) -> bool {
    match op {
        OpCode::Jmp | OpCode::Jsr | OpCode::Rts | OpCode::Rti | OpCode::Brk => true,
        _ => false,
    }
}

pub open spec fn is_stack_op(op: OpCode) -> bool {
    match op {
        OpCode::Pha | OpCode::Php | OpCode::Pla | OpCode::Plp => true,
        _ => false,
    }
}

/// Single-byte instructions that touch registers and flags only.
pub open spec fn is_implied_op(op: OpCode) -> bool {
    !is_read_op(op) && !is_store_op(op) && !is_rmw_op(op) && !is_branch_op(op) && !is_jump_op(op)
        && !is_stack_op(op)
}

/// One decoded instruction, run from state `s` (whose PC points at its opcode):
/// the state after it and the extra cycles it cost, or the fault it hit.
pub open spec fn effect(s: CpuView, ins: Instruction) -> Result<(CpuView, u8), Fault> {
    let op = ins.op_code;
    let mode = ins.addr_mode;
    if is_read_op(op) {
        Ok(exec_read(s, op, mode))
    } else if is_store_op(op) {
        exec_store(s, op, mode)
    } else if is_rmw_op(op) {
        exec_rmw(s, op, mode)
    } else if is_branch_op(op) {
        Ok(exec_branch(s, op))
    } else if is_jump_op(op) {
        Ok((exec_jump(s, op, mode), 0))
    } else if is_stack_op(op) {
        Ok((exec_stack(s, op), 0))
    } else {
        Ok((exec_implied(s, op), 0))
    }
}

/// One call of `Cpu::step`: while the busy counter runs down nothing executes;
/// otherwise the opcode at PC is fetched, decoded and executed, and the busy
/// counter is set to the instruction's cost minus the cycle of this call.
#[verifier::opaque]
pub open spec fn step_spec(s: CpuView) -> Result<(bool, CpuView), Fault> {
    if s.busy > 0 {
        Ok((false, CpuView { busy: (s.busy - 1) as u8, ..s }))
    } else {
        let (b, s1) = s.rd(s.pc);
        match decode(b) {
            None => Err(Fault::UnknownOpcode { pc: s.pc, opcode: b }),
            Some(ins) => match effect(s1, ins) {
                Err(f) => Err(f),
                Ok((s2, extra)) => Ok((true, CpuView { busy: (base_cycles(ins) + extra - 1) as u8, ..s2 })),
            },
        }
    }
}

} // verus!
