//! The 6502 core: registers, the fetch-decode-execute step and one handler per mnemonic.
use crate::bus::{word, write_disabled, Bus, RAM_SIZE};
use crate::opcodes::{
    byte_len, decode, is_read_op, is_rmw_op, is_store_op, AddrMode, Instruction, OpCode,
};
use crate::ppu::Ppu;
use crate::rom::Cartridge;
use crate::semantics::{
    branch_if, effect, exec_branch, exec_implied, exec_jump, exec_read, exec_rmw, exec_stack,
    exec_store, is_branch_op, is_jump_op, is_stack_op, modify, operand, page_crossed, pulled_status, resolve, step_spec, store_to,
    add_with_carry, compare, CpuView, Fault, IRQ_VECTOR, RESET_VECTOR, STACK_BASE,
};
use crate::status::{flag, with_flag, ProcessorStatus, CARRY, OVERFLOW};
use vstd::prelude::*;

verus! {

/// The CPU and, through its bus, the rest of the machine.
pub struct Cpu {
    /// Program counter.
    pub pc: u16,
    /// Stack pointer: the low byte of the next free stack slot in page 1.
    pub sp: u8,
    /// Accumulator.
    pub acc: u8,
    /// Index register X.
    pub x: u8,
    /// Index register Y.
    pub y: u8,
    /// Processor status.
    pub ps: ProcessorStatus,
    pub bus: Bus,
    /// Cycles still owed by the last instruction.
    pub cycles_to_finish: u8,
}

impl View for Cpu {
    type V = CpuView;

    open spec fn view(&self) -> CpuView {
        CpuView {
            pc: self.pc,
            sp: self.sp,
            acc: self.acc,
            x: self.x,
            y: self.y,
            ps: self.ps@,
            busy: self.cycles_to_finish,
            bus: self.bus@,
        }
    }
}

impl Cpu {
    pub open spec fn wf(&self) -> bool {
        self.bus.wf()
    }

    /// A CPU with a fresh bus around `cartridge`: PC 0, SP 0xFF, other registers and status clear.
    pub fn new(cartridge: Cartridge) -> (r: Cpu)
        ensures
            r.wf(),
            r@.pc == 0,
            r@.sp == 0xFF,
            r@.acc == 0 && r@.x == 0 && r@.y == 0 && r@.ps == 0 && r@.busy == 0,
            r@.bus.ram == Seq::new(RAM_SIZE as nat, |i: int| 0u8),
            r@.bus.prg == cartridge@.prg,
            r@.bus.ppu == Ppu::new_spec(),
    {
        Cpu {
            pc: 0,
            sp: 0xFF,
            acc: 0,
            x: 0,
            y: 0,
            ps: ProcessorStatus::default(),
            bus: Bus::new(cartridge),
            cycles_to_finish: 0,
        }
    }

    /// Loads PC from the reset vector and clears SP to 0xFF, the other registers and the status.
    pub fn reset(&mut self)
        requires
            old(self).wf(),
        ensures
            final(self).wf(),
            ({
                let (v, s1) = old(self)@.rd16(RESET_VECTOR);
                final(self)@ == CpuView { pc: v, sp: 0xFF, acc: 0, x: 0, y: 0, ps: 0, busy: 0, ..s1 }
            }),
    {
        let v = self.read_word(RESET_VECTOR);
        self.pc = v;
        self.sp = 0xFF;
        self.acc = 0;
        self.x = 0;
        self.y = 0;
        self.ps = ProcessorStatus::new();
        self.cycles_to_finish = 0;
    }

    pub fn set_pc(&mut self, value: u16)
        ensures
            final(self)@ == (CpuView { pc: value, ..old(self)@ }),
    {
        self.pc = value;
    }

    /// Fetches the opcode byte at `pc` and decodes it.
    pub fn get_instruction(&mut self, pc: u16) -> (r: (Option<Instruction>, u8))
        requires
            old(self).wf(),
        ensures
            final(self).wf(),
            (r.1, final(self)@) == old(self)@.rd(pc),
            r.0 == decode(r.1),
    {
        let byte_code = self.read(pc);
        (Instruction::get(byte_code), byte_code)
    }

    /// Runs one clock tick: pays off a cycle of the last instruction, or executes
    /// the next one. Reports a fault instead of executing an unknown opcode or a
    /// write to the disabled test-mode range.
    pub fn try_step(&mut self) -> (r: Result<bool, Fault>)
        requires
            old(self).wf(),
        ensures
            final(self).wf(),
            step_spec(old(self)@) matches Ok((e, s)) ==> r == Ok::<bool, Fault>(e) && final(self)@ == s,
            step_spec(old(self)@) matches Err(f) ==> r == Err::<bool, Fault>(f),
    {
        reveal(step_spec);
        if self.cycles_to_finish > 0 {
            self.cycles_to_finish = self.cycles_to_finish - 1;
            return Ok(false);
        }
        let pc = self.pc;
        let (instruction, byte_code) = self.get_instruction(pc);
        match instruction {
            None => Err(Fault::UnknownOpcode { pc, opcode: byte_code }),
            Some(ins) => match self.execute(ins) {
                Err(f) => Err(f),
                Ok(extra) => {
                    self.cycles_to_finish = ins.cycles() + extra - 1;
                    Ok(true)
                },
            },
        }
    }

    /// Runs one clock tick; returns whether an instruction was executed. The
    /// caller rules out the faults that `try_step` reports.
    pub fn step(&mut self) -> (r: bool)
        requires
            old(self).wf(),
            step_spec(old(self)@) is Ok,
        ensures
            final(self).wf(),
            step_spec(old(self)@) == Ok::<(bool, CpuView), Fault>((r, final(self)@)),
    {
        match self.try_step() {
            Ok(executed) => executed,
            Err(_) => false,
        }
    }

    /// Executes a decoded instruction whose opcode sits at PC; returns the
    /// cycles it costs beyond its base cost.
    fn execute(&mut self, ins: Instruction) -> (r: Result<u8, Fault>)
        requires
            old(self).wf(),
        ensures
            final(self).wf(),
            effect(old(self)@, ins) matches Ok((s, e)) ==> r == Ok::<u8, Fault>(e) && final(self)@ == s,
            effect(old(self)@, ins) matches Err(f) ==> r == Err::<u8, Fault>(f),
            r matches Ok(e) ==> e <= 2,
    {
        let op = ins.op_code;
        let mode = ins.addr_mode;
        if op.is_read() {
            Ok(self.execute_read(op, mode))
        } else if op.is_store() {
            self.execute_store(op, mode)
        } else if op.is_rmw() {
            self.execute_rmw(op, mode)
        } else if op.is_branch() {
            Ok(self.execute_branch(op))
        } else if op.is_jump() {
            self.execute_jump(op, mode);
            Ok(0)
        } else if op.is_stack() {
            self.execute_stack(op);
            Ok(0)
        } else {
            self.execute_implied(op);
            Ok(0)
        }
    }

    fn execute_read(&mut self, op: OpCode, mode: AddrMode) -> (r: u8)
        requires
            old(self).wf(),
            is_read_op(op),
        ensures
            final(self).wf(),
            (final(self)@, r) == exec_read(old(self)@, op, mode),
            r <= 1,
    {
        match op {
            OpCode::Adc => self.adc(mode),
            OpCode::And => self.and(mode),
            OpCode::Bit => self.bit(mode),
            OpCode::Cmp => self.cmp(mode),
            OpCode::Cpx => self.cpx(mode),
            OpCode::Cpy => self.cpy(mode),
            OpCode::Eor => self.eor(mode),
            OpCode::Lda => self.lda(mode),
            OpCode::Ldx => self.ldx(mode),
            OpCode::Ldy => self.ldy(mode),
            OpCode::Ora => self.ora(mode),
            OpCode::Sbc => self.sbc(mode),
            _ => 0,
        }
    }

    fn execute_store(&mut self, op: OpCode, mode: AddrMode) -> (r: Result<u8, Fault>)
        requires
            old(self).wf(),
            is_store_op(op),
        ensures
            final(self).wf(),
            exec_store(old(self)@, op, mode) matches Ok((s, e)) ==> r == Ok::<u8, Fault>(e)
                && final(self)@ == s,
            exec_store(old(self)@, op, mode) matches Err(f) ==> r == Err::<u8, Fault>(f),
    {
        match op {
            OpCode::Sta => self.sta(mode),
            OpCode::Stx => self.stx(mode),
            _ => self.sty(mode),
        }
    }

    fn execute_rmw(&mut self, op: OpCode, mode: AddrMode) -> (r: Result<u8, Fault>)
        requires
            old(self).wf(),
            is_rmw_op(op),
        ensures
            final(self).wf(),
            exec_rmw(old(self)@, op, mode) matches Ok((s, e)) ==> r == Ok::<u8, Fault>(e)
                && final(self)@ == s,
            exec_rmw(old(self)@, op, mode) matches Err(f) ==> r == Err::<u8, Fault>(f),
            r matches Ok(e) ==> e == 0,
    {
        match op {
            OpCode::Asl => self.asl(mode),
            OpCode::Dec => self.dec(mode),
            OpCode::Inc => self.inc(mode),
            OpCode::Lsr => self.lsr(mode),
            OpCode::Rol => self.rol(mode),
            _ => self.ror(mode),
        }
    }

    fn execute_branch(&mut self, op: OpCode) -> (r: u8)
        requires
            old(self).wf(),
            is_branch_op(op),
        ensures
            final(self).wf(),
            (final(self)@, r) == exec_branch(old(self)@, op),
            r <= 2,
    {
        match op {
            OpCode::Bcc => self.bcc(),
            OpCode::Bcs => self.bcs(),
            OpCode::Beq => self.beq(),
            OpCode::Bmi => self.bmi(),
            OpCode::Bne => self.bne(),
            OpCode::Bpl => self.bpl(),
            OpCode::Bvc => self.bvc(),
            _ => self.bvs(),
        }
    }

    fn execute_jump(&mut self, op: OpCode, mode: AddrMode)
        requires
            old(self).wf(),
            is_jump_op(op),
        ensures
            final(self).wf(),
            final(self)@ == exec_jump(old(self)@, op, mode),
    {
        match op {
            OpCode::Jmp => self.jmp(mode),
            OpCode::Jsr => self.jsr(),
            OpCode::Rts => self.rts(),
            OpCode::Rti => self.rti(),
            _ => self.brk(),
        }
    }

    fn execute_stack(&mut self, op: OpCode)
        requires
            old(self).wf(),
            is_stack_op(op),
        ensures
            final(self).wf(),
            final(self)@ == exec_stack(old(self)@, op),
    {
        match op {
            OpCode::Pha => self.pha(),
            OpCode::Php => self.php(),
            OpCode::Pla => self.pla(),
            _ => self.plp(),
        }
    }

    fn execute_implied(&mut self, op: OpCode)
        requires
            old(self).wf(),
            !is_read_op(op),
            !is_store_op(op),
            !is_rmw_op(op),
            !is_branch_op(op),
            !is_jump_op(op),
            !is_stack_op(op),
        ensures
            final(self).wf(),
            final(self)@ == exec_implied(old(self)@, op),
    {
        match op {
            OpCode::Clc => self.clc(),
            OpCode::Cld => self.cld(),
            OpCode::Cli => self.cli(),
            OpCode::Clv => self.clv(),
            OpCode::Dex => self.dex(),
            OpCode::Dey => self.dey(),
            OpCode::Inx => self.inx(),
            OpCode::Iny => self.iny(),
            OpCode::Nop => self.nop(),
            OpCode::Sec => self.sec(),
            OpCode::Sed => self.sed(),
            OpCode::Sei => self.sei(),
            OpCode::Tax => self.tax(),
            OpCode::Tay => self.tay(),
            OpCode::Tsx => self.tsx(),
            OpCode::Txa => self.txa(),
            OpCode::Txs => self.txs(),
            OpCode::Tya => self.tya(),
            _ => {},
        }
    }

    // Memory access and stack.

    fn read(&mut self, addr: u16) -> (r: u8)
        requires
            old(self).wf(),
        ensures
            final(self).wf(),
            (r, final(self)@) == old(self)@.rd(addr),
    {
        self.bus.read_8(addr)
    }

    fn read_word(&mut self, addr: u16) -> (r: u16)
        requires
            old(self).wf(),
        ensures
            final(self).wf(),
            (r, final(self)@) == old(self)@.rd16(addr),
    {
        let lo = self.read(addr);
        let hi = self.read(addr.wrapping_add(1));
        (hi as u16) * 256 + lo as u16
    }

    fn read_word_zp(&mut self, ptr: u8) -> (r: u16)
        requires
            old(self).wf(),
        ensures
            final(self).wf(),
            (r, final(self)@) == old(self)@.rd16_zp(ptr),
    {
        let lo = self.read(ptr as u16);
        let hi = self.read(ptr.wrapping_add(1) as u16);
        (hi as u16) * 256 + lo as u16
    }

    fn write(&mut self, addr: u16, value: u8)
        requires
            old(self).wf(),
            !write_disabled(addr),
        ensures
            final(self).wf(),
            final(self)@ == old(self)@.wr(addr, value),
    {
        self.bus.write(addr, value);
    }

    fn push(&mut self, value: u8)
        requires
            old(self).wf(),
        ensures
            final(self).wf(),
            final(self)@ == old(self)@.push(value),
    {
        let addr = STACK_BASE + self.sp as u16;
        self.write(addr, value);
        self.sp = self.sp.wrapping_sub(1);
    }

    fn pull(&mut self) -> (r: u8)
        requires
            old(self).wf(),
        ensures
            final(self).wf(),
            (r, final(self)@) == old(self)@.pull(),
    {
        self.sp = self.sp.wrapping_add(1);
        let addr = STACK_BASE + self.sp as u16;
        self.read(addr)
    }

    fn set_nz(&mut self, value: u8)
        requires
            old(self).wf(),
        ensures
            final(self).wf(),
            final(self)@ == old(self)@.with_nz_of(value),
    {
        self.ps.set_nz(value);
    }

    fn advance(&mut self, mode: AddrMode)
        requires
            old(self).wf(),
        ensures
            final(self).wf(),
            final(self)@ == (CpuView { pc: old(self)@.pc.wrapping_add(byte_len(mode)), ..old(self)@ }),
    {
        self.pc = self.pc.wrapping_add(mode.size());
    }

    // Operand resolvers.

    /// Zero page, optionally indexed: (byte at PC+1 + offset) mod 256.
    fn addr_zp_offset(&mut self, offset: u8) -> (r: u16)
        requires
            old(self).wf(),
        ensures
            final(self).wf(),
            ({
                let (b, s1) = old(self)@.rd(old(self)@.arg());
                r == b.wrapping_add(offset) as u16 && final(self)@ == s1
            }),
    {
        let b = self.read(self.pc.wrapping_add(1));
        b.wrapping_add(offset) as u16
    }

    /// Absolute: the little-endian word at PC+1.
    fn addr_absolute(&mut self) -> (r: u16)
        requires
            old(self).wf(),
        ensures
            final(self).wf(),
            (r, final(self)@) == old(self)@.rd16(old(self)@.arg()),
    {
        self.read_word(self.pc.wrapping_add(1))
    }

    /// Absolute indexed; also whether the index moved the address to another page.
    fn addr_absolute_with_offset(&mut self, offset: u8) -> (r: (u16, bool))
        requires
            old(self).wf(),
        ensures
            final(self).wf(),
            ({
                let (w, s1) = old(self)@.rd16(old(self)@.arg());
                r.0 == w.wrapping_add(offset as u16) && r.1 == page_crossed(w, r.0) && final(self)@
                    == s1
            }),
    {
        let base = self.addr_absolute();
        let addr = base.wrapping_add(offset as u16);
        (addr, base / 256 != addr / 256)
    }

    /// Indirect: the word stored at the absolute pointer.
    fn addr_indirect(&mut self) -> (r: u16)
        requires
            old(self).wf(),
        ensures
            final(self).wf(),
            ({
                let (p, s1) = old(self)@.rd16(old(self)@.arg());
                (r, final(self)@) == s1.rd16(p)
            }),
    {
        let ptr = self.addr_absolute();
        self.read_word(ptr)
    }

    /// Indexed indirect: the word at the zero-page pointer (byte at PC+1 + X).
    fn addr_indirect_x(&mut self) -> (r: u16)
        requires
            old(self).wf(),
        ensures
            final(self).wf(),
            ({
                let (b, s1) = old(self)@.rd(old(self)@.arg());
                (r, final(self)@) == s1.rd16_zp(b.wrapping_add(old(self)@.x))
            }),
    {
        let b = self.read(self.pc.wrapping_add(1));
        let x = self.x;
        self.read_word_zp(b.wrapping_add(x))
    }

    /// Indirect indexed: the word at the zero-page pointer, plus Y; also the page-cross flag.
    fn addr_indirect_y(&mut self) -> (r: (u16, bool))
        requires
            old(self).wf(),
        ensures
            final(self).wf(),
            ({
                let (b, s1) = old(self)@.rd(old(self)@.arg());
                let (w, s2) = s1.rd16_zp(b);
                r.0 == w.wrapping_add(old(self)@.y as u16) && r.1 == page_crossed(w, r.0)
                    && final(self)@ == s2
            }),
    {
        let b = self.read(self.pc.wrapping_add(1));
        let base = self.read_word_zp(b);
        let addr = base.wrapping_add(self.y as u16);
        (addr, base / 256 != addr / 256)
    }

    /// The effective address of a memory operand and whether indexing crossed a page.
    fn resolve(&mut self, mode: AddrMode) -> (r: (u16, bool))
        requires
            old(self).wf(),
        ensures
            final(self).wf(),
            (r.0, r.1, final(self)@) == resolve(old(self)@, mode),
    {
        match mode {
            AddrMode::Zp => (self.addr_zp_offset(0), false),
            AddrMode::ZpX => {
                let x = self.x;
                (self.addr_zp_offset(x), false)
            },
            AddrMode::ZpY => {
                let y = self.y;
                (self.addr_zp_offset(y), false)
            },
            AddrMode::Absolute => (self.addr_absolute(), false),
            AddrMode::AbsoluteX => {
                let x = self.x;
                self.addr_absolute_with_offset(x)
            },
            AddrMode::AbsoluteY => {
                let y = self.y;
                self.addr_absolute_with_offset(y)
            },
            AddrMode::Indirect => (self.addr_indirect(), false),
            AddrMode::IndirectX => (self.addr_indirect_x(), false),
            AddrMode::IndirectY => self.addr_indirect_y(),
            _ => (0, false),
        }
    }

    /// The operand value of a reading instruction and whether indexing crossed a page.
    fn operand(&mut self, mode: AddrMode) -> (r: (u8, bool))
        requires
            old(self).wf(),
        ensures
            final(self).wf(),
            (r.0, r.1, final(self)@) == operand(old(self)@, mode),
    {
        match mode {
            AddrMode::Immediate => (self.read(self.pc.wrapping_add(1)), false),
            AddrMode::Accumulator => (self.acc, false),
            _ => {
                let (addr, cross) = self.resolve(mode);
                (self.read(addr), cross)
            },
        }
    }

    // Shared pieces of the handlers.

    /// Adds `m` and the carry to the accumulator, setting C, V, Z and N.
    fn add_to_acc(&mut self, m: u8)
        requires
            old(self).wf(),
        ensures
            final(self).wf(),
            ({
                let s = old(self)@;
                let (r, c, v) = add_with_carry(s.acc, m, flag(s.ps, CARRY));
                final(self)@ == CpuView {
                    acc: r,
                    ps: with_flag(with_flag(s.ps, CARRY, c), OVERFLOW, v),
                    ..s
                }.with_nz_of(r)
            }),
    {
        let c: u16 = if self.ps.carry() { 1 } else { 0 };
        let a = self.acc;
        let sum: u16 = a as u16 + m as u16 + c;
        let r = (sum % 256) as u8;
        self.ps.set_carry(sum > 255);
        self.ps.set_overflow((a < 128) == (m < 128) && (r < 128) != (a < 128));
        self.acc = r;
        self.set_nz(r);
    }

    fn compare_with(&mut self, reg: u8, m: u8)
        requires
            old(self).wf(),
        ensures
            final(self).wf(),
            final(self)@ == (CpuView { ps: compare(old(self)@.ps, reg, m), ..old(self)@ }),
    {
        self.ps.set_carry(reg >= m);
        self.set_nz(reg.wrapping_sub(m));
    }

    fn store(&mut self, mode: AddrMode, value: u8) -> (r: Result<u8, Fault>)
        requires
            old(self).wf(),
        ensures
            final(self).wf(),
            store_to(old(self)@, mode, value) matches Ok((s, e)) ==> r == Ok::<u8, Fault>(e)
                && final(self)@ == s,
            store_to(old(self)@, mode, value) matches Err(f) ==> r == Err::<u8, Fault>(f),
    {
        let pc = self.pc;
        let (addr, _) = self.resolve(mode);
        if 0x4018 <= addr && addr <= 0x401F {
            return Err(Fault::DisabledWrite { pc, addr });
        }
        self.write(addr, value);
        self.advance(mode);
        Ok(0)
    }

    /// The result of a read-modify-write mnemonic on `v`, and the status after it.
    fn modify_value(&self, op: OpCode, v: u8) -> (r: (u8, ProcessorStatus))
        ensures
            (r.0, r.1@) == modify(op, v, self.ps@),
    {
        let mut p = self.ps;
        let c: u8 = if p.carry() { 1 } else { 0 };
        let (result, carry_out) = match op {
            OpCode::Inc => (v.wrapping_add(1), false),
            OpCode::Dec => (v.wrapping_sub(1), false),
            OpCode::Asl => ((v % 128) * 2, v >= 128),
            OpCode::Rol => ((v % 128) * 2 + c, v >= 128),
            OpCode::Lsr => (v / 2, v % 2 == 1),
            _ => (v / 2 + c * 128, v % 2 == 1),
        };
        match op {
            OpCode::Inc | OpCode::Dec => {},
            _ => p.set_carry(carry_out),
        }
        p.set_nz(result);
        (result, p)
    }

    fn read_modify_write(&mut self, op: OpCode, mode: AddrMode) -> (r: Result<u8, Fault>)
        requires
            old(self).wf(),
        ensures
            final(self).wf(),
            exec_rmw(old(self)@, op, mode) matches Ok((s, e)) ==> r == Ok::<u8, Fault>(e)
                && final(self)@ == s,
            exec_rmw(old(self)@, op, mode) matches Err(f) ==> r == Err::<u8, Fault>(f),
    {
        if mode == AddrMode::Accumulator {
            let (result, p) = self.modify_value(op, self.acc);
            self.acc = result;
            self.ps = p;
            self.advance(mode);
            return Ok(0);
        }
        let pc = self.pc;
        let (addr, _) = self.resolve(mode);
        if 0x4018 <= addr && addr <= 0x401F {
            return Err(Fault::DisabledWrite { pc, addr });
        }
        let v = self.read(addr);
        let (result, p) = self.modify_value(op, v);
        self.write(addr, result);
        self.ps = p;
        self.advance(mode);
        Ok(0)
    }

    /// A relative branch at PC, taken when `taken` holds; returns its extra cycles.
    fn branch(&mut self, taken: bool) -> (r: u8)
        requires
            old(self).wf(),
        ensures
            final(self).wf(),
            (final(self)@, r) == branch_if(old(self)@, taken),
            r <= 2,
    {
        let off = self.read(self.pc.wrapping_add(1));
        let base = self.pc.wrapping_add(2);
        if taken {
            let target = if off < 128 {
                base.wrapping_add(off as u16)
            } else {
                base.wrapping_sub(256 - off as u16)
            };
            self.pc = target;
            if base / 256 != target / 256 {
                2
            } else {
                1
            }
        } else {
            self.pc = base;
            0
        }
    }

    // Handlers, one per mnemonic.

    fn jmp(&mut self, mode: AddrMode)
        requires
            old(self).wf(),
        ensures
            final(self).wf(),
            final(self)@ == exec_jump(old(self)@, OpCode::Jmp, mode),
    {
        let (target, _) = self.resolve(mode);
        self.pc = target;
    }

    fn jsr(&mut self)
        requires
            old(self).wf(),
        ensures
            final(self).wf(),
            final(self)@ == exec_jump(old(self)@, OpCode::Jsr, AddrMode::Absolute),
    {
        let ret = self.pc.wrapping_add(2);
        let target = self.read_word(self.pc.wrapping_add(1));
        self.push((ret / 256) as u8);
        self.push((ret % 256) as u8);
        self.pc = target;
    }

    fn rts(&mut self)
        requires
            old(self).wf(),
        ensures
            final(self).wf(),
            final(self)@ == exec_jump(old(self)@, OpCode::Rts, AddrMode::Implicit),
    {
        let lo = self.pull();
        let hi = self.pull();
        let ret = (hi as u16) * 256 + lo as u16;
        self.pc = ret.wrapping_add(1);
    }

    fn rti(&mut self)
        requires
            old(self).wf(),
        ensures
            final(self).wf(),
            final(self)@ == exec_jump(old(self)@, OpCode::Rti, AddrMode::Implicit),
    {
        let old_p = self.ps.get_reg();
        let p = self.pull();
        let lo = self.pull();
        let hi = self.pull();
        self.ps = ProcessorStatus::from_reg((p & 0xCF) | (old_p & 0x30));
        self.pc = (hi as u16) * 256 + lo as u16;
    }

    fn brk(&mut self)
        requires
            old(self).wf(),
        ensures
            final(self).wf(),
            final(self)@ == exec_jump(old(self)@, OpCode::Brk, AddrMode::Implicit),
    {
        let ret = self.pc.wrapping_add(2);
        self.push((ret / 256) as u8);
        self.push((ret % 256) as u8);
        let p = self.ps.get_reg() | 0x10;
        self.push(p);
        let target = self.read_word(IRQ_VECTOR);
        self.ps = ProcessorStatus::from_reg(p | 0x04);
        self.pc = target;
    }

    fn pha(&mut self)
        requires
            old(self).wf(),
        ensures
            final(self).wf(),
            final(self)@ == exec_stack(old(self)@, OpCode::Pha),
    {
        let v = self.acc;
        self.push(v);
        self.pc = self.pc.wrapping_add(1);
    }

    fn php(&mut self)
        requires
            old(self).wf(),
        ensures
            final(self).wf(),
            final(self)@ == exec_stack(old(self)@, OpCode::Php),
    {
        let v = self.ps.get_reg();
        self.push(v);
        self.pc = self.pc.wrapping_add(1);
    }

    fn pla(&mut self)
        requires
            old(self).wf(),
        ensures
            final(self).wf(),
            final(self)@ == exec_stack(old(self)@, OpCode::Pla),
    {
        let v = self.pull();
        self.acc = v;
        self.set_nz(v);
        self.pc = self.pc.wrapping_add(1);
    }

    fn plp(&mut self)
        requires
            old(self).wf(),
        ensures
            final(self).wf(),
            final(self)@ == exec_stack(old(self)@, OpCode::Plp),
    {
        let old_p = self.ps.get_reg();
        let v = self.pull();
        self.ps = ProcessorStatus::from_reg((v & 0xCF) | (old_p & 0x30));
        self.pc = self.pc.wrapping_add(1);
    }

    #[verifier::rlimit(40)]
    fn lda(&mut self, mode: AddrMode) -> (r: u8)
        requires
            old(self).wf(),
        ensures
            final(self).wf(),
            (final(self)@, r) == exec_read(old(self)@, OpCode::Lda, mode),
            r <= 1,
    {
        let (m, cross) = self.operand(mode);
        self.acc = m;
        self.set_nz(m);
        self.advance(mode);
        if cross {
            1
        } else {
            0
        }
    }

    #[verifier::rlimit(40)]
    fn ldx(&mut self, mode: AddrMode) -> (r: u8)
        requires
            old(self).wf(),
        ensures
            final(self).wf(),
            (final(self)@, r) == exec_read(old(self)@, OpCode::Ldx, mode),
            r <= 1,
    {
        let (m, cross) = self.operand(mode);
        self.x = m;
        self.set_nz(m);
        self.advance(mode);
        if cross {
            1
        } else {
            0
        }
    }

    #[verifier::rlimit(40)]
    fn ldy(&mut self, mode: AddrMode) -> (r: u8)
        requires
            old(self).wf(),
        ensures
            final(self).wf(),
            (final(self)@, r) == exec_read(old(self)@, OpCode::Ldy, mode),
            r <= 1,
    {
        let (m, cross) = self.operand(mode);
        self.y = m;
        self.set_nz(m);
        self.advance(mode);
        if cross {
            1
        } else {
            0
        }
    }

    #[verifier::rlimit(40)]
    fn and(&mut self, mode: AddrMode) -> (r: u8)
        requires
            old(self).wf(),
        ensures
            final(self).wf(),
            (final(self)@, r) == exec_read(old(self)@, OpCode::And, mode),
            r <= 1,
    {
        let (m, cross) = self.operand(mode);
        self.acc = self.acc & m;
        let v = self.acc;
        self.set_nz(v);
        self.advance(mode);
        if cross {
            1
        } else {
            0
        }
    }

    #[verifier::rlimit(40)]
    fn ora(&mut self, mode: AddrMode) -> (r: u8)
        requires
            old(self).wf(),
        ensures
            final(self).wf(),
            (final(self)@, r) == exec_read(old(self)@, OpCode::Ora, mode),
            r <= 1,
    {
        let (m, cross) = self.operand(mode);
        self.acc = self.acc | m;
        let v = self.acc;
        self.set_nz(v);
        self.advance(mode);
        if cross {
            1
        } else {
            0
        }
    }

    #[verifier::rlimit(40)]
    fn eor(&mut self, mode: AddrMode) -> (r: u8)
        requires
            old(self).wf(),
        ensures
            final(self).wf(),
            (final(self)@, r) == exec_read(old(self)@, OpCode::Eor, mode),
            r <= 1,
    {
        let (m, cross) = self.operand(mode);
        self.acc = self.acc ^ m;
        let v = self.acc;
        self.set_nz(v);
        self.advance(mode);
        if cross {
            1
        } else {
            0
        }
    }

    #[verifier::rlimit(40)]
    fn adc(&mut self, mode: AddrMode) -> (r: u8)
        requires
            old(self).wf(),
        ensures
            final(self).wf(),
            (final(self)@, r) == exec_read(old(self)@, OpCode::Adc, mode),
            r <= 1,
    {
        let (m, cross) = self.operand(mode);
        self.add_to_acc(m);
        self.advance(mode);
        if cross {
            1
        } else {
            0
        }
    }

    #[verifier::rlimit(40)]
    fn sbc(&mut self, mode: AddrMode) -> (r: u8)
        requires
            old(self).wf(),
        ensures
            final(self).wf(),
            (final(self)@, r) == exec_read(old(self)@, OpCode::Sbc, mode),
            r <= 1,
    {
        let (m, cross) = self.operand(mode);
        self.add_to_acc(255 - m);
        self.advance(mode);
        if cross {
            1
        } else {
            0
        }
    }

    #[verifier::rlimit(40)]
    fn cmp(&mut self, mode: AddrMode) -> (r: u8)
        requires
            old(self).wf(),
        ensures
            final(self).wf(),
            (final(self)@, r) == exec_read(old(self)@, OpCode::Cmp, mode),
            r <= 1,
    {
        let (m, cross) = self.operand(mode);
        let reg = self.acc;
        self.compare_with(reg, m);
        self.advance(mode);
        if cross {
            1
        } else {
            0
        }
    }

    #[verifier::rlimit(40)]
    fn cpx(&mut self, mode: AddrMode) -> (r: u8)
        requires
            old(self).wf(),
        ensures
            final(self).wf(),
            (final(self)@, r) == exec_read(old(self)@, OpCode::Cpx, mode),
            r <= 1,
    {
        let (m, cross) = self.operand(mode);
        let reg = self.x;
        self.compare_with(reg, m);
        self.advance(mode);
        if cross {
            1
        } else {
            0
        }
    }

    #[verifier::rlimit(40)]
    fn cpy(&mut self, mode: AddrMode) -> (r: u8)
        requires
            old(self).wf(),
        ensures
            final(self).wf(),
            (final(self)@, r) == exec_read(old(self)@, OpCode::Cpy, mode),
            r <= 1,
    {
        let (m, cross) = self.operand(mode);
        let reg = self.y;
        self.compare_with(reg, m);
        self.advance(mode);
        if cross {
            1
        } else {
            0
        }
    }

    #[verifier::rlimit(40)]
    fn bit(&mut self, mode: AddrMode) -> (r: u8)
        requires
            old(self).wf(),
        ensures
            final(self).wf(),
            (final(self)@, r) == exec_read(old(self)@, OpCode::Bit, mode),
            r <= 1,
    {
        let (m, cross) = self.operand(mode);
        let a = self.acc;
        self.ps.set_zero(a & m == 0);
        self.ps.set_negative(m >= 128);
        self.ps.set_overflow(m & 0x40 != 0);
        self.advance(mode);
        if cross {
            1
        } else {
            0
        }
    }

    fn sta(&mut self, mode: AddrMode) -> (r: Result<u8, Fault>)
        requires
            old(self).wf(),
        ensures
            final(self).wf(),
            exec_store(old(self)@, OpCode::Sta, mode) matches Ok((s, e)) ==> r == Ok::<u8, Fault>(e)
                && final(self)@ == s,
            exec_store(old(self)@, OpCode::Sta, mode) matches Err(f) ==> r == Err::<u8, Fault>(f),
    {
        let v = self.acc;
        self.store(mode, v)
    }

    fn stx(&mut self, mode: AddrMode) -> (r: Result<u8, Fault>)
        requires
            old(self).wf(),
        ensures
            final(self).wf(),
            exec_store(old(self)@, OpCode::Stx, mode) matches Ok((s, e)) ==> r == Ok::<u8, Fault>(e)
                && final(self)@ == s,
            exec_store(old(self)@, OpCode::Stx, mode) matches Err(f) ==> r == Err::<u8, Fault>(f),
    {
        let v = self.x;
        self.store(mode, v)
    }

    fn sty(&mut self, mode: AddrMode) -> (r: Result<u8, Fault>)
        requires
            old(self).wf(),
        ensures
            final(self).wf(),
            exec_store(old(self)@, OpCode::Sty, mode) matches Ok((s, e)) ==> r == Ok::<u8, Fault>(e)
                && final(self)@ == s,
            exec_store(old(self)@, OpCode::Sty, mode) matches Err(f) ==> r == Err::<u8, Fault>(f),
    {
        let v = self.y;
        self.store(mode, v)
    }

    fn asl(&mut self, mode: AddrMode) -> (r: Result<u8, Fault>)
        requires
            old(self).wf(),
        ensures
            final(self).wf(),
            exec_rmw(old(self)@, OpCode::Asl, mode) matches Ok((s, e)) ==> r == Ok::<u8, Fault>(e)
                && final(self)@ == s,
            exec_rmw(old(self)@, OpCode::Asl, mode) matches Err(f) ==> r == Err::<u8, Fault>(f),
    {
        self.read_modify_write(OpCode::Asl, mode)
    }

    fn lsr(&mut self, mode: AddrMode) -> (r: Result<u8, Fault>)
        requires
            old(self).wf(),
        ensures
            final(self).wf(),
            exec_rmw(old(self)@, OpCode::Lsr, mode) matches Ok((s, e)) ==> r == Ok::<u8, Fault>(e)
                && final(self)@ == s,
            exec_rmw(old(self)@, OpCode::Lsr, mode) matches Err(f) ==> r == Err::<u8, Fault>(f),
    {
        self.read_modify_write(OpCode::Lsr, mode)
    }

    fn rol(&mut self, mode: AddrMode) -> (r: Result<u8, Fault>)
        requires
            old(self).wf(),
        ensures
            final(self).wf(),
            exec_rmw(old(self)@, OpCode::Rol, mode) matches Ok((s, e)) ==> r == Ok::<u8, Fault>(e)
                && final(self)@ == s,
            exec_rmw(old(self)@, OpCode::Rol, mode) matches Err(f) ==> r == Err::<u8, Fault>(f),
    {
        self.read_modify_write(OpCode::Rol, mode)
    }

    fn ror(&mut self, mode: AddrMode) -> (r: Result<u8, Fault>)
        requires
            old(self).wf(),
        ensures
            final(self).wf(),
            exec_rmw(old(self)@, OpCode::Ror, mode) matches Ok((s, e)) ==> r == Ok::<u8, Fault>(e)
                && final(self)@ == s,
            exec_rmw(old(self)@, OpCode::Ror, mode) matches Err(f) ==> r == Err::<u8, Fault>(f),
    {
        self.read_modify_write(OpCode::Ror, mode)
    }

    fn inc(&mut self, mode: AddrMode) -> (r: Result<u8, Fault>)
        requires
            old(self).wf(),
        ensures
            final(self).wf(),
            exec_rmw(old(self)@, OpCode::Inc, mode) matches Ok((s, e)) ==> r == Ok::<u8, Fault>(e)
                && final(self)@ == s,
            exec_rmw(old(self)@, OpCode::Inc, mode) matches Err(f) ==> r == Err::<u8, Fault>(f),
    {
        self.read_modify_write(OpCode::Inc, mode)
    }

    fn dec(&mut self, mode: AddrMode) -> (r: Result<u8, Fault>)
        requires
            old(self).wf(),
        ensures
            final(self).wf(),
            exec_rmw(old(self)@, OpCode::Dec, mode) matches Ok((s, e)) ==> r == Ok::<u8, Fault>(e)
                && final(self)@ == s,
            exec_rmw(old(self)@, OpCode::Dec, mode) matches Err(f) ==> r == Err::<u8, Fault>(f),
    {
        self.read_modify_write(OpCode::Dec, mode)
    }

    fn bcc(&mut self) -> (r: u8)
        requires
            old(self).wf(),
        ensures
            final(self).wf(),
            (final(self)@, r) == exec_branch(old(self)@, OpCode::Bcc),
            r <= 2,
    {
        let taken = !self.ps.carry();
        self.branch(taken)
    }

    fn bcs(&mut self) -> (r: u8)
        requires
            old(self).wf(),
        ensures
            final(self).wf(),
            (final(self)@, r) == exec_branch(old(self)@, OpCode::Bcs),
            r <= 2,
    {
        let taken = self.ps.carry();
        self.branch(taken)
    }

    fn beq(&mut self) -> (r: u8)
        requires
            old(self).wf(),
        ensures
            final(self).wf(),
            (final(self)@, r) == exec_branch(old(self)@, OpCode::Beq),
            r <= 2,
    {
        let taken = self.ps.zero();
        self.branch(taken)
    }

    fn bne(&mut self) -> (r: u8)
        requires
            old(self).wf(),
        ensures
            final(self).wf(),
            (final(self)@, r) == exec_branch(old(self)@, OpCode::Bne),
            r <= 2,
    {
        let taken = !self.ps.zero();
        self.branch(taken)
    }

    fn bmi(&mut self) -> (r: u8)
        requires
            old(self).wf(),
        ensures
            final(self).wf(),
            (final(self)@, r) == exec_branch(old(self)@, OpCode::Bmi),
            r <= 2,
    {
        let taken = self.ps.negative();
        self.branch(taken)
    }

    fn bpl(&mut self) -> (r: u8)
        requires
            old(self).wf(),
        ensures
            final(self).wf(),
            (final(self)@, r) == exec_branch(old(self)@, OpCode::Bpl),
            r <= 2,
    {
        let taken = !self.ps.negative();
        self.branch(taken)
    }

    fn bvc(&mut self) -> (r: u8)
        requires
            old(self).wf(),
        ensures
            final(self).wf(),
            (final(self)@, r) == exec_branch(old(self)@, OpCode::Bvc),
            r <= 2,
    {
        let taken = !self.ps.overflow();
        self.branch(taken)
    }

    fn bvs(&mut self) -> (r: u8)
        requires
            old(self).wf(),
        ensures
            final(self).wf(),
            (final(self)@, r) == exec_branch(old(self)@, OpCode::Bvs),
            r <= 2,
    {
        let taken = self.ps.overflow();
        self.branch(taken)
    }

    fn inx(&mut self)
        requires
            old(self).wf(),
        ensures
            final(self).wf(),
            final(self)@ == exec_implied(old(self)@, OpCode::Inx),
    {
        self.x = self.x.wrapping_add(1);
        let v = self.x;
        self.set_nz(v);
        self.pc = self.pc.wrapping_add(1);
    }

    fn iny(&mut self)
        requires
            old(self).wf(),
        ensures
            final(self).wf(),
            final(self)@ == exec_implied(old(self)@, OpCode::Iny),
    {
        self.y = self.y.wrapping_add(1);
        let v = self.y;
        self.set_nz(v);
        self.pc = self.pc.wrapping_add(1);
    }

    fn dex(&mut self)
        requires
            old(self).wf(),
        ensures
            final(self).wf(),
            final(self)@ == exec_implied(old(self)@, OpCode::Dex),
    {
        self.x = self.x.wrapping_sub(1);
        let v = self.x;
        self.set_nz(v);
        self.pc = self.pc.wrapping_add(1);
    }

    fn dey(&mut self)
        requires
            old(self).wf(),
        ensures
            final(self).wf(),
            final(self)@ == exec_implied(old(self)@, OpCode::Dey),
    {
        self.y = self.y.wrapping_sub(1);
        let v = self.y;
        self.set_nz(v);
        self.pc = self.pc.wrapping_add(1);
    }

    fn tax(&mut self)
        requires
            old(self).wf(),
        ensures
            final(self).wf(),
            final(self)@ == exec_implied(old(self)@, OpCode::Tax),
    {
        self.x = self.acc;
        let v = self.x;
        self.set_nz(v);
        self.pc = self.pc.wrapping_add(1);
    }

    fn tay(&mut self)
        requires
            old(self).wf(),
        ensures
            final(self).wf(),
            final(self)@ == exec_implied(old(self)@, OpCode::Tay),
    {
        self.y = self.acc;
        let v = self.y;
        self.set_nz(v);
        self.pc = self.pc.wrapping_add(1);
    }

    fn tsx(&mut self)
        requires
            old(self).wf(),
        ensures
            final(self).wf(),
            final(self)@ == exec_implied(old(self)@, OpCode::Tsx),
    {
        self.x = self.sp;
        let v = self.x;
        self.set_nz(v);
        self.pc = self.pc.wrapping_add(1);
    }

    fn txa(&mut self)
        requires
            old(self).wf(),
        ensures
            final(self).wf(),
            final(self)@ == exec_implied(old(self)@, OpCode::Txa),
    {
        self.acc = self.x;
        let v = self.acc;
        self.set_nz(v);
        self.pc = self.pc.wrapping_add(1);
    }

    fn tya(&mut self)
        requires
            old(self).wf(),
        ensures
            final(self).wf(),
            final(self)@ == exec_implied(old(self)@, OpCode::Tya),
    {
        self.acc = self.y;
        let v = self.acc;
        self.set_nz(v);
        self.pc = self.pc.wrapping_add(1);
    }

    fn txs(&mut self)
        requires
            old(self).wf(),
        ensures
            final(self).wf(),
            final(self)@ == exec_implied(old(self)@, OpCode::Txs),
    {
        self.sp = self.x;
        self.pc = self.pc.wrapping_add(1);
    }

    fn clc(&mut self)
        requires
            old(self).wf(),
        ensures
            final(self).wf(),
            final(self)@ == exec_implied(old(self)@, OpCode::Clc),
    {
        self.ps.set_carry(false);
        self.pc = self.pc.wrapping_add(1);
    }

    fn cld(&mut self)
        requires
            old(self).wf(),
        ensures
            final(self).wf(),
            final(self)@ == exec_implied(old(self)@, OpCode::Cld),
    {
        self.ps.set_decimal(false);
        self.pc = self.pc.wrapping_add(1);
    }

    fn cli(&mut self)
        requires
            old(self).wf(),
        ensures
            final(self).wf(),
            final(self)@ == exec_implied(old(self)@, OpCode::Cli),
    {
        self.ps.set_irqb(false);
        self.pc = self.pc.wrapping_add(1);
    }

    fn clv(&mut self)
        requires
            old(self).wf(),
        ensures
            final(self).wf(),
            final(self)@ == exec_implied(old(self)@, OpCode::Clv),
    {
        self.ps.set_overflow(false);
        self.pc = self.pc.wrapping_add(1);
    }

    fn sec(&mut self)
        requires
            old(self).wf(),
        ensures
            final(self).wf(),
            final(self)@ == exec_implied(old(self)@, OpCode::Sec),
    {
        self.ps.set_carry(true);
        self.pc = self.pc.wrapping_add(1);
    }

    fn sed(&mut self)
        requires
            old(self).wf(),
        ensures
            final(self).wf(),
            final(self)@ == exec_implied(old(self)@, OpCode::Sed),
    {
        self.ps.set_decimal(true);
        self.pc = self.pc.wrapping_add(1);
    }

    fn sei(&mut self)
        requires
            old(self).wf(),
        ensures
            final(self).wf(),
            final(self)@ == exec_implied(old(self)@, OpCode::Sei),
    {
        self.ps.set_irqb(true);
        self.pc = self.pc.wrapping_add(1);
    }

    fn nop(&mut self)
        requires
            old(self).wf(),
        ensures
            final(self).wf(),
            final(self)@ == exec_implied(old(self)@, OpCode::Nop),
    {
        
        self.pc = self.pc.wrapping_add(1);
    }
}

} // verus!
