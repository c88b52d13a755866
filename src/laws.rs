//! Properties that hold of every instruction and every bus access.
use crate::bus::BusView;
use crate::opcodes::{
    byte_len, decode, is_read_op, is_rmw_op, is_store_op, AddrMode, Instruction, OpCode,
};
use crate::ppu::{PPU_STATUS, VBLANK_BIT};
use crate::semantics::{
    add_with_carry, branch_taken, compare, effect, exec_branch, exec_implied, exec_read, exec_rmw, exec_stack,
    exec_store, is_branch_op, is_implied_op, is_jump_op, is_stack_op, modify, operand, shift,
    step_spec, CpuView, Fault,
};
use crate::status::{
    flag, lemma_with_flag, lemma_with_nz, with_flag, CARRY, NEGATIVE, OVERFLOW, ZERO,
};
use vstd::prelude::*;

verus! {

/// Single-byte instructions decode with the implicit mode, branches with the relative one.
pub proof fn lemma_decoded_modes(b: u8)
    ensures
        decode(b) matches Some(ins) ==> {
            &&& is_stack_op(ins.op_code) ==> ins.addr_mode == AddrMode::Implicit
            &&& is_branch_op(ins.op_code) ==> ins.addr_mode == AddrMode::Relative
            &&& is_implied_op(ins.op_code) ==> ins.addr_mode == AddrMode::Implicit
        },
{
}

/// An instruction that neither jumps nor takes a branch leaves PC just past itself.
pub proof fn lemma_exec_advances_pc(s: CpuView, ins: Instruction)
    requires
        !is_jump_op(ins.op_code),
        is_branch_op(ins.op_code) ==> !branch_taken(ins.op_code, s.ps) && ins.addr_mode
            == AddrMode::Relative,
        is_stack_op(ins.op_code) || is_implied_op(ins.op_code) ==> ins.addr_mode == AddrMode::Implicit,
    ensures
        effect(s, ins) matches Ok((s2, _e)) ==> s2.pc == s.pc.wrapping_add(byte_len(ins.addr_mode)),
{
    let op = ins.op_code;
    let mode = ins.addr_mode;
    if is_read_op(op) {
        assert(effect(s, ins) == Ok::<(CpuView, u8), Fault>(exec_read(s, op, mode)));
    } else if is_store_op(op) {
        assert(effect(s, ins) == exec_store(s, op, mode));
    } else if is_rmw_op(op) {
        assert(effect(s, ins) == exec_rmw(s, op, mode));
    } else if is_branch_op(op) {
        assert(effect(s, ins) == Ok::<(CpuView, u8), Fault>(exec_branch(s, op)));
    } else if is_stack_op(op) {
        assert(effect(s, ins) == Ok::<(CpuView, u8), Fault>((exec_stack(s, op), 0u8)));
    } else {
        assert(effect(s, ins) == Ok::<(CpuView, u8), Fault>((exec_implied(s, op), 0u8)));
    }
}

/// Every decodable instruction that neither jumps nor takes a branch moves PC
/// past itself: by exactly its byte length, wrapping at the top of memory.
pub proof fn lemma_step_advances_pc(s: CpuView)
    requires
        s.busy == 0,
        decode(s.bus.read_value(s.pc)) is Some,
        !is_jump_op(decode(s.bus.read_value(s.pc))->Some_0.op_code),
        is_branch_op(decode(s.bus.read_value(s.pc))->Some_0.op_code) ==> !branch_taken(
            decode(s.bus.read_value(s.pc))->Some_0.op_code,
            s.ps,
        ),
    ensures
        step_spec(s) matches Ok((e, s2)) ==> e && s2.pc == s.pc.wrapping_add(
            byte_len(decode(s.bus.read_value(s.pc))->Some_0.addr_mode),
        ),
{
    reveal(step_spec);
    let (b, s1) = s.rd(s.pc);
    let ins = decode(b)->Some_0;
    lemma_decoded_modes(b);
    lemma_exec_advances_pc(s1, ins);
}

/// After ADC, SBC, AND, ORA or EOR, Zero tells whether the new accumulator is 0
/// and Negative is its bit 7.
pub proof fn lemma_accumulator_result_flags(s: CpuView, ins: Instruction)
    requires
        ins.op_code == OpCode::Adc || ins.op_code == OpCode::Sbc || ins.op_code == OpCode::And
            || ins.op_code == OpCode::Ora || ins.op_code == OpCode::Eor,
    ensures
        effect(s, ins) matches Ok((s2, _e)) ==> flag(s2.ps, ZERO) == (s2.acc == 0) && flag(s2.ps, NEGATIVE)
            == (s2.acc >= 128),
{
    let (m, _c, s1) = operand(s, ins.addr_mode);
    if let Ok((s2, _e)) = effect(s, ins) {
        // the status just before Zero and Negative are set
        let q = match ins.op_code {
            OpCode::Adc | OpCode::Sbc => {
                let m2 = if ins.op_code == OpCode::Adc { m } else { (255 - m) as u8 };
                let (_r, c2, v) = add_with_carry(s1.acc, m2, flag(s1.ps, CARRY));
                with_flag(with_flag(s1.ps, CARRY, c2), OVERFLOW, v)
            },
            _ => s1.ps,
        };
        lemma_with_nz(q, s2.acc);
    }
}

/// After INX, INY, DEX or DEY, Zero and Negative describe the new index register.
pub proof fn lemma_index_result_flags(s: CpuView, ins: Instruction)
    requires
        ins.op_code == OpCode::Inx || ins.op_code == OpCode::Iny || ins.op_code == OpCode::Dex
            || ins.op_code == OpCode::Dey,
    ensures
        effect(s, ins) matches Ok((s2, _e)) ==> {
            let r = if ins.op_code == OpCode::Inx || ins.op_code == OpCode::Dex {
                s2.x
            } else {
                s2.y
            };
            flag(s2.ps, ZERO) == (r == 0) && flag(s2.ps, NEGATIVE) == (r >= 128)
        },
{
    if let Ok((s2, _e)) = effect(s, ins) {
        let r = if ins.op_code == OpCode::Inx || ins.op_code == OpCode::Dex {
            s2.x
        } else {
            s2.y
        };
        lemma_with_nz(s.ps, r);
    }
}

/// INC, DEC, ASL, LSR, ROL and ROR set Zero and Negative from the byte they produce.
pub proof fn lemma_modify_result_flags(op: OpCode, v: u8, p: u8)
    ensures
        flag(modify(op, v, p).1, ZERO) == (modify(op, v, p).0 == 0),
        flag(modify(op, v, p).1, NEGATIVE) == (modify(op, v, p).0 >= 128),
{
    let r = modify(op, v, p).0;
    match op {
        OpCode::Inc | OpCode::Dec => lemma_with_nz(p, r),
        _ => {
            let (r2, c) = shift(op, v, flag(p, CARRY));
            lemma_with_nz(with_flag(p, CARRY, c), r2);
        },
    }
}

/// Shifts and rotates put the bit shifted out into Carry: bit 7 for ASL and
/// ROL, bit 0 for LSR and ROR.
pub proof fn lemma_shift_carry(op: OpCode, b: u8, p: u8)
    requires
        op == OpCode::Asl || op == OpCode::Lsr || op == OpCode::Rol || op == OpCode::Ror,
    ensures
        op == OpCode::Asl || op == OpCode::Rol ==> flag(modify(op, b, p).1, CARRY) == (b >= 128),
        op == OpCode::Lsr || op == OpCode::Ror ==> flag(modify(op, b, p).1, CARRY) == (b % 2 == 1),
{
    let (r, c) = shift(op, b, flag(p, CARRY));
    lemma_with_flag(p, CARRY, c, ZERO);
    lemma_with_nz(with_flag(p, CARRY, c), r);
}

/// CMP, CPX and CPY with register value `reg` and operand `m`: Carry is
/// `reg >= m`, Zero is `reg == m`, Negative is bit 7 of `reg - m` mod 256.
pub proof fn lemma_compare_flags(p: u8, reg: u8, m: u8)
    ensures
        flag(compare(p, reg, m), CARRY) == (reg >= m),
        flag(compare(p, reg, m), ZERO) == (reg == m),
        flag(compare(p, reg, m), NEGATIVE) == (reg.wrapping_sub(m) >= 128),
{
    lemma_with_flag(p, CARRY, reg >= m, ZERO);
    lemma_with_nz(with_flag(p, CARRY, reg >= m), reg.wrapping_sub(m));
}

/// A compare instruction leaves the registers alone and sets the status as `compare` says.
pub proof fn lemma_compare_step(s: CpuView, ins: Instruction)
    requires
        ins.op_code == OpCode::Cmp || ins.op_code == OpCode::Cpx || ins.op_code == OpCode::Cpy,
    ensures
        effect(s, ins) matches Ok((s2, _e)) ==> {
            let reg = if ins.op_code == OpCode::Cmp {
                s.acc
            } else if ins.op_code == OpCode::Cpx {
                s.x
            } else {
                s.y
            };
            &&& s2.acc == s.acc && s2.x == s.x && s2.y == s.y
            &&& s2.ps == compare(s.ps, reg, operand(s, ins.addr_mode).0)
        },
{
    assert(effect(s, ins) == Ok::<(CpuView, u8), Fault>(exec_read(s, ins.op_code, ins.addr_mode)));
}

/// Writing to cartridge space changes nothing: a following read at the same
/// address returns the ROM byte.
pub proof fn lemma_rom_write_ignored(b: BusView, addr: u16, v: u8)
    requires
        addr >= 0x8000,
    ensures
        b.after_write(addr, v) == b,
        b.after_write(addr, v).read_value(addr) == b.read_value(addr),
{
}

/// The 2 KiB of RAM repeat four times over 0x0000..0x2000: all four aliases
/// read the same byte, and a write through any of them writes that byte.
pub proof fn lemma_ram_mirroring(b: BusView, addr: u16, k: u16, v: u8)
    requires
        addr <= 0x1FFF,
        k == 0 || k == 0x0800 || k == 0x1000 || k == 0x1800,
    ensures
        b.read_value(addr & 0x07FF) == b.read_value((addr & 0x07FF) | k),
        b.after_read((addr & 0x07FF) | k) == b,
        b.after_write(addr & 0x07FF, v) == b.after_write((addr & 0x07FF) | k, v),
{
    assert(((addr & 0x07FF) | k) % 0x800 == (addr & 0x07FF) % 0x800 && ((addr & 0x07FF) | k) <= 0x1FFF
        && (addr & 0x07FF) <= 0x7FF) by (bit_vector)
        requires
            addr <= 0x1FFF,
            k == 0 || k == 0x0800 || k == 0x1000 || k == 0x1800,
    ;
}

/// Every address in 0x2000..0x4000 with `addr % 8 == r` reaches PPU register `r`:
/// reads and writes there are those of 0x2000 + r.
pub proof fn lemma_ppu_register_mirroring(b: BusView, addr: u16, r: u16, v: u8)
    requires
        r < 8,
        0x2000 <= addr <= 0x3FFF,
        addr % 8 == r,
    ensures
        b.read_value(addr) == b.read_value((0x2000 + r) as u16),
        b.after_read(addr) == b.after_read((0x2000 + r) as u16),
        b.after_write(addr, v) == b.after_write((0x2000 + r) as u16, v),
{
}

/// Reading the PPU status through the bus returns it as it was and then clears
/// its bit 7: a second read in a row sees bit 7 clear.
pub proof fn lemma_status_read_clears_vblank(b: BusView, addr: u16)
    requires
        0x2000 <= addr <= 0x3FFF,
        addr % 8 == PPU_STATUS,
    ensures
        b.read_value(addr) == b.ppu.status,
        b.after_read(addr).read_value(addr) & VBLANK_BIT == 0,
{
    crate::ppu::lemma_status_read_twice(b.ppu);
}

} // verus!
