//! The processor core: the six architectural registers, fetch-decode-execute
//! stepping, addressing-mode resolution and flag-accurate instruction
//! semantics, with every memory effect routed through the bus.
use vstd::prelude::*;
use vstd::pervasive::VecAdditionalExecFns;

use crate::cpu_memory::BusView;
use crate::cpu_memory::CpuMemory;
use crate::cpu_memory::bus_read_state;
use crate::cpu_memory::bus_read_value;
use crate::cpu_memory::bus_read_word_state;
use crate::cpu_memory::bus_read_word_value;
use crate::cpu_memory::bus_write_state;
use crate::cpu_memory::mem_wf;
use crate::cpu_memory::read_mem;
use crate::cpu_memory::read_mem_word;
use crate::cpu_memory::word_hi;
use crate::cpu_memory::word_lo;
use crate::cpu_memory::write_mem;
use crate::opcode::AddrMode;
use crate::opcode::Mnemonic;
use crate::opcode::Opcode;
use crate::opcode::is_implemented;
use crate::opcode::mnemonic_implemented;
use crate::opcode::opcode_lookup;
use crate::opcode::opcode_spec;

verus! {

/// The register file: accumulator, the two index registers, the stack
/// pointer (an offset into the fixed page 0x0100-0x01FF), the status/flag
/// register and the 16-bit program counter.
#[derive(Clone, Copy, Debug, PartialEq, Eq, Structural)]
pub struct Cpu {
    /// Accumulator.
    pub reg_a: u8,
    /// Index register X.
    pub reg_x: u8,
    /// Index register Y.
    pub reg_y: u8,
    /// Stack pointer, wrapping modulo 256 within page 0x0100-0x01FF.
    pub reg_s: u8,
    /// Status register: N,V,reserved,B,D,I,Z,C from high to low bit.
    pub reg_p: u8,
    /// Program counter, addressing the full 64KB space.
    pub reg_pc: u16,
}

/// A fatal stepping condition.
#[derive(Clone, Copy, Debug, PartialEq, Eq, Structural)]
pub enum CpuError {
    /// The fetched instruction byte decodes to a mnemonic class the
    /// interpreter gives no semantic effect; carries the instruction byte
    /// and the program counter it was fetched from.
    UnimplementedInstruction { opcode: u8, pc: u16 },
}

/// Negative flag (bit 7 of the status register).
pub const REG_P_FLAG_N: u8 = 0x80;
/// Overflow flag.
pub const REG_P_FLAG_V: u8 = 0x40;
/// Reserved bit.
pub const REG_P_FLAG_R: u8 = 0x20;
/// Break flag.
pub const REG_P_FLAG_B: u8 = 0x10;
/// Decimal-mode flag.
pub const REG_P_FLAG_D: u8 = 0x08;
/// Interrupt-disable flag.
pub const REG_P_FLAG_I: u8 = 0x04;
/// Zero flag.
pub const REG_P_FLAG_Z: u8 = 0x02;
/// Carry flag (bit 0).
pub const REG_P_FLAG_C: u8 = 0x01;

/// Mask clearing the negative flag.
pub const REG_P_MASK_N: u8 = 0x7F;
/// Mask clearing the overflow flag.
pub const REG_P_MASK_V: u8 = 0xBF;
/// Mask clearing the reserved bit.
pub const REG_P_MASK_R: u8 = 0xDF;
/// Mask clearing the break flag.
pub const REG_P_MASK_B: u8 = 0xEF;
/// Mask clearing the decimal-mode flag.
pub const REG_P_MASK_D: u8 = 0xF7;
/// Mask clearing the interrupt-disable flag.
pub const REG_P_MASK_I: u8 = 0xFB;
/// Mask clearing the zero flag.
pub const REG_P_MASK_Z: u8 = 0xFD;
/// Mask clearing the carry flag.
pub const REG_P_MASK_C: u8 = 0xFE;

/// Creates a processor at power-on: registers cleared, the program counter
/// at the start of the program-ROM range. [`reset`] reseeds the counter from
/// the reset vector.
pub fn new_cpu() -> (cpu: Cpu)
    ensures
        cpu.reg_a == 0,
        cpu.reg_x == 0,
        cpu.reg_y == 0,
        cpu.reg_s == 0,
        cpu.reg_p == 0,
        cpu.reg_pc == 0x8000,
{
    Cpu { reg_a: 0, reg_x: 0, reg_y: 0, reg_s: 0, reg_p: 0, reg_pc: 0x8000 }
}

/// The flag-update rule applied after every value-producing operation:
/// negative flag from bit 7 of the value, zero flag from the value being
/// zero, all other flags kept.
pub open spec fn flags_nz(p: u8, v: u8) -> u8 {
    (p & (REG_P_MASK_N & REG_P_MASK_Z)) | (v & REG_P_FLAG_N) | (if v == 0 {
        REG_P_FLAG_Z
    } else {
        0
    })
}

/// Applies the negative/zero flag-update rule.
fn update_nz(p: u8, v: u8) -> (r: u8)
    ensures
        r == flags_nz(p, v),
{
    (p & (REG_P_MASK_N & REG_P_MASK_Z)) | (v & REG_P_FLAG_N) | (if v == 0 {
        REG_P_FLAG_Z
    } else {
        0
    })
}

/// Seeds the program counter from the reset vector (the little-endian word
/// at 0xFFFC) and sets the interrupt-disable flag.
pub fn reset(cpu: &mut Cpu, mem: &mut CpuMemory)
    requires
        mem_wf(old(mem)@),
    ensures
        mem_wf(final(mem)@),
        final(cpu).reg_pc == bus_read_word_value(old(mem)@, 0xFFFC),
        final(cpu).reg_p == old(cpu).reg_p | REG_P_FLAG_I,
        final(cpu).reg_a == old(cpu).reg_a,
        final(cpu).reg_x == old(cpu).reg_x,
        final(cpu).reg_y == old(cpu).reg_y,
        final(cpu).reg_s == old(cpu).reg_s,
        final(mem)@ == bus_read_word_state(old(mem)@, 0xFFFC),
{
    cpu.reg_pc = read_mem_word(mem, 0xFFFC);
    cpu.reg_p = cpu.reg_p | REG_P_FLAG_I;
}

/// Fetches the byte under the program counter and advances the counter,
/// wrapping within the 64KB space.
pub open spec fn fetch_byte_spec(c: Cpu, m: BusView) -> (u8, Cpu, BusView) {
    (
        bus_read_value(m, c.reg_pc),
        Cpu { reg_pc: c.reg_pc.wrapping_add(1), ..c },
        bus_read_state(m, c.reg_pc),
    )
}

/// Fetches the little-endian word under the program counter and advances the
/// counter by two.
pub open spec fn fetch_word_spec(c: Cpu, m: BusView) -> (u16, Cpu, BusView) {
    (
        bus_read_word_value(m, c.reg_pc),
        Cpu { reg_pc: c.reg_pc.wrapping_add(2), ..c },
        bus_read_word_state(m, c.reg_pc),
    )
}

/// Fetches one instruction byte at the program counter, auto-incrementing it.
pub fn fetch_pc_byte(cpu: &mut Cpu, mem: &mut CpuMemory) -> (data: u8)
    requires
        mem_wf(old(mem)@),
    ensures
        mem_wf(final(mem)@),
        data == fetch_byte_spec(*old(cpu), old(mem)@).0,
        *final(cpu) == fetch_byte_spec(*old(cpu), old(mem)@).1,
        final(mem)@ == fetch_byte_spec(*old(cpu), old(mem)@).2,
{
    let data = read_mem(mem, cpu.reg_pc);
    cpu.reg_pc = cpu.reg_pc.wrapping_add(1);
    data
}

/// Fetches one instruction word at the program counter, auto-incrementing it
/// by two.
pub fn fetch_pc_word(cpu: &mut Cpu, mem: &mut CpuMemory) -> (data: u16)
    requires
        mem_wf(old(mem)@),
    ensures
        mem_wf(final(mem)@),
        data == fetch_word_spec(*old(cpu), old(mem)@).0,
        *final(cpu) == fetch_word_spec(*old(cpu), old(mem)@).1,
        final(mem)@ == fetch_word_spec(*old(cpu), old(mem)@).2,
{
    let data = read_mem_word(mem, cpu.reg_pc);
    cpu.reg_pc = cpu.reg_pc.wrapping_add(2);
    data
}

/// Little-endian word read from a raw byte buffer: low byte at `p`, high
/// byte at `p + 1`.
pub fn read_word(data: &[u8], p: u16) -> (w: u16)
    requires
        p < 0xFFFF,
        p as int + 1 < data@.len(),
    ensures
        w == ((data@[p as int + 1] as u16) << 8) | (data@[p as int] as u16),
{
    ((data[(p + 1) as usize] as u16) << 8) | (data[p as usize] as u16)
}

/// Little-endian word write into a raw byte buffer: low byte at `p`, high
/// byte at `p + 1`.
pub fn write_word(data: &mut Vec<u8>, p: u16, v: u16)
    requires
        p < 0xFFFF,
        p as int + 1 < old(data)@.len(),
    ensures
        final(data)@ == old(data)@.update(p as int, (v & 0xFF) as u8).update(
            p as int + 1,
            ((v & 0xFF00) >> 8) as u8,
        ),
{
    let lo = word_lo(v);
    let hi = word_hi(v);
    data.set(p as usize, lo);
    data.set((p + 1) as usize, hi);
}

/// Pushes a byte onto the stack page at 0x0100 plus the stack pointer; the
/// pointer then advances, wrapping modulo 256.
pub open spec fn stack_push_byte_spec(c: Cpu, m: BusView, data: u8) -> (Cpu, BusView) {
    (
        Cpu { reg_s: c.reg_s.wrapping_add(1), ..c },
        bus_write_state(m, 0x0100 | (c.reg_s as u16), data),
    )
}

/// Pops a byte: the stack pointer retreats, wrapping modulo 256, and the
/// byte under it is read back.
pub open spec fn stack_pop_byte_spec(c: Cpu, m: BusView) -> (u8, Cpu, BusView) {
    let s = c.reg_s.wrapping_sub(1);
    let addr = 0x0100 | (s as u16);
    (bus_read_value(m, addr), Cpu { reg_s: s, ..c }, bus_read_state(m, addr))
}

/// Pushes a word: low byte first, then the high byte, each advancing the
/// stack pointer.
pub open spec fn stack_push_word_spec(c: Cpu, m: BusView, data: u16) -> (Cpu, BusView) {
    let lo_pushed = stack_push_byte_spec(c, m, (data & 0xFF) as u8);
    stack_push_byte_spec(lo_pushed.0, lo_pushed.1, ((data & 0xFF00) >> 8) as u8)
}

/// Pops a word: the high byte first, then the low byte, mirroring the order
/// [`stack_push_word_spec`] stored them in.
pub open spec fn stack_pop_word_spec(c: Cpu, m: BusView) -> (u16, Cpu, BusView) {
    let hi_popped = stack_pop_byte_spec(c, m);
    let lo_popped = stack_pop_byte_spec(hi_popped.1, hi_popped.2);
    (
        ((hi_popped.0 as u16) << 8) | (lo_popped.0 as u16),
        lo_popped.1,
        lo_popped.2,
    )
}

/// Pushes one byte onto the stack page.
pub fn stack_push_byte(cpu: &mut Cpu, mem: &mut CpuMemory, data: u8)
    requires
        mem_wf(old(mem)@),
    ensures
        mem_wf(final(mem)@),
        *final(cpu) == stack_push_byte_spec(*old(cpu), old(mem)@, data).0,
        final(mem)@ == stack_push_byte_spec(*old(cpu), old(mem)@, data).1,
{
    write_mem(mem, 0x0100 | (cpu.reg_s as u16), data);
    cpu.reg_s = cpu.reg_s.wrapping_add(1);
}

/// Pops one byte from the stack page.
pub fn stack_pop_byte(cpu: &mut Cpu, mem: &mut CpuMemory) -> (data: u8)
    requires
        mem_wf(old(mem)@),
    ensures
        mem_wf(final(mem)@),
        data == stack_pop_byte_spec(*old(cpu), old(mem)@).0,
        *final(cpu) == stack_pop_byte_spec(*old(cpu), old(mem)@).1,
        final(mem)@ == stack_pop_byte_spec(*old(cpu), old(mem)@).2,
{
    cpu.reg_s = cpu.reg_s.wrapping_sub(1);
    read_mem(mem, 0x0100 | (cpu.reg_s as u16))
}

/// Pushes one word onto the stack page, low byte first.
pub fn stack_push_word(cpu: &mut Cpu, mem: &mut CpuMemory, data: u16)
    requires
        mem_wf(old(mem)@),
    ensures
        mem_wf(final(mem)@),
        *final(cpu) == stack_push_word_spec(*old(cpu), old(mem)@, data).0,
        final(mem)@ == stack_push_word_spec(*old(cpu), old(mem)@, data).1,
{
    let lo = word_lo(data);
    stack_push_byte(cpu, mem, lo);
    let hi = word_hi(data);
    stack_push_byte(cpu, mem, hi);
}

/// Pops one word from the stack page, high byte first.
pub fn stack_pop_word(cpu: &mut Cpu, mem: &mut CpuMemory) -> (data: u16)
    requires
        mem_wf(old(mem)@),
    ensures
        mem_wf(final(mem)@),
        data == stack_pop_word_spec(*old(cpu), old(mem)@).0,
        *final(cpu) == stack_pop_word_spec(*old(cpu), old(mem)@).1,
        final(mem)@ == stack_pop_word_spec(*old(cpu), old(mem)@).2,
{
    let hi = stack_pop_byte(cpu, mem);
    let lo = stack_pop_byte(cpu, mem);
    ((hi as u16) << 8) | (lo as u16)
}

/// Resolves an addressing mode to its operand: an immediate value, an
/// effective address, or nothing, consuming 0-2 bytes from the instruction
/// stream.
///
/// The zero-page indexed modes wrap within the zero page; the absolute
/// indexed modes add the index register to the full 16-bit address; the
/// pre-indexed and post-indexed indirect modes read a little-endian pointer
/// out of the zero page.
pub open spec fn resolve_spec(c: Cpu, m: BusView, mode: AddrMode) -> (u16, Cpu, BusView) {
    match mode {
        AddrMode::Implied => (0, c, m),
        AddrMode::Immediate => {
            let fetched = fetch_byte_spec(c, m);
            (fetched.0 as u16, fetched.1, fetched.2)
        },
        AddrMode::ZeroPage => {
            let fetched = fetch_byte_spec(c, m);
            (fetched.0 as u16, fetched.1, fetched.2)
        },
        AddrMode::ZeroPageX => {
            let fetched = fetch_byte_spec(c, m);
            (fetched.0.wrapping_add(c.reg_x) as u16, fetched.1, fetched.2)
        },
        AddrMode::ZeroPageY => {
            let fetched = fetch_byte_spec(c, m);
            (fetched.0.wrapping_add(c.reg_y) as u16, fetched.1, fetched.2)
        },
        AddrMode::Absolute => fetch_word_spec(c, m),
        AddrMode::AbsoluteX => {
            let fetched = fetch_word_spec(c, m);
            (fetched.0.wrapping_add(c.reg_x as u16), fetched.1, fetched.2)
        },
        AddrMode::AbsoluteY => {
            let fetched = fetch_word_spec(c, m);
            (fetched.0.wrapping_add(c.reg_y as u16), fetched.1, fetched.2)
        },
        AddrMode::IndirectX => {
            let fetched = fetch_byte_spec(c, m);
            let ptr = fetched.0.wrapping_add(c.reg_x);
            let lo = bus_read_value(fetched.2, ptr as u16);
            let m2 = bus_read_state(fetched.2, ptr as u16);
            let hi = bus_read_value(m2, ptr.wrapping_add(1) as u16);
            let m3 = bus_read_state(m2, ptr.wrapping_add(1) as u16);
            (((hi as u16) << 8) | (lo as u16), fetched.1, m3)
        },
        AddrMode::IndirectY => {
            let fetched = fetch_byte_spec(c, m);
            let ptr = fetched.0;
            let lo = bus_read_value(fetched.2, ptr as u16);
            let m2 = bus_read_state(fetched.2, ptr as u16);
            let hi = bus_read_value(m2, ptr.wrapping_add(1) as u16);
            let m3 = bus_read_state(m2, ptr.wrapping_add(1) as u16);
            ((((hi as u16) << 8) | (lo as u16)).wrapping_add(c.reg_y as u16), fetched.1, m3)
        },
        AddrMode::Indirect => {
            let fetched = fetch_word_spec(c, m);
            (
                bus_read_word_value(fetched.2, fetched.0),
                fetched.1,
                bus_read_word_state(fetched.2, fetched.0),
            )
        },
        AddrMode::Accumulator => (c.reg_a as u16, c, m),
        AddrMode::Relative => {
            let fetched = fetch_byte_spec(c, m);
            (fetched.0 as u16, fetched.1, fetched.2)
        },
    }
}

/// Resolves the instruction's operand per its addressing mode, consuming the
/// operand bytes from the instruction stream.
pub fn read_by_addressing(cpu: &mut Cpu, mem: &mut CpuMemory, op: &Opcode) -> (data: u16)
    requires
        mem_wf(old(mem)@),
    ensures
        mem_wf(final(mem)@),
        data == resolve_spec(*old(cpu), old(mem)@, op.addressing).0,
        *final(cpu) == resolve_spec(*old(cpu), old(mem)@, op.addressing).1,
        final(mem)@ == resolve_spec(*old(cpu), old(mem)@, op.addressing).2,
{
    match op.addressing {
        AddrMode::Implied => 0,
        AddrMode::Immediate => fetch_pc_byte(cpu, mem) as u16,
        AddrMode::ZeroPage => fetch_pc_byte(cpu, mem) as u16,
        AddrMode::ZeroPageX => {
            let x = cpu.reg_x;
            let base = fetch_pc_byte(cpu, mem);
            base.wrapping_add(x) as u16
        },
        AddrMode::ZeroPageY => {
            let y = cpu.reg_y;
            let base = fetch_pc_byte(cpu, mem);
            base.wrapping_add(y) as u16
        },
        AddrMode::Absolute => fetch_pc_word(cpu, mem),
        AddrMode::AbsoluteX => {
            let x = cpu.reg_x;
            let base = fetch_pc_word(cpu, mem);
            base.wrapping_add(x as u16)
        },
        AddrMode::AbsoluteY => {
            let y = cpu.reg_y;
            let base = fetch_pc_word(cpu, mem);
            base.wrapping_add(y as u16)
        },
        AddrMode::IndirectX => {
            let x = cpu.reg_x;
            let base = fetch_pc_byte(cpu, mem);
            let ptr = base.wrapping_add(x);
            let lo = read_mem(mem, ptr as u16);
            let hi = read_mem(mem, ptr.wrapping_add(1) as u16);
            ((hi as u16) << 8) | (lo as u16)
        },
        AddrMode::IndirectY => {
            let y = cpu.reg_y;
            let ptr = fetch_pc_byte(cpu, mem);
            let lo = read_mem(mem, ptr as u16);
            let hi = read_mem(mem, ptr.wrapping_add(1) as u16);
            (((hi as u16) << 8) | (lo as u16)).wrapping_add(y as u16)
        },
        AddrMode::Indirect => {
            let ptr = fetch_pc_word(cpu, mem);
            read_mem_word(mem, ptr)
        },
        AddrMode::Accumulator => cpu.reg_a as u16,
        AddrMode::Relative => fetch_pc_byte(cpu, mem) as u16,
    }
}

/// The value an instruction operates on: the resolved operand itself in
/// immediate mode, else the byte the bus reads at the resolved address.
pub open spec fn operand_spec(m: BusView, mode: AddrMode, data: u16) -> (u8, BusView) {
    if mode == AddrMode::Immediate {
        ((data & 0xFF) as u8, m)
    } else {
        (bus_read_value(m, data), bus_read_state(m, data))
    }
}

/// Reads the value an instruction operates on.
fn operand_value(mem: &mut CpuMemory, mode: AddrMode, data: u16) -> (v: u8)
    requires
        mem_wf(old(mem)@),
    ensures
        mem_wf(final(mem)@),
        v == operand_spec(old(mem)@, mode, data).0,
        final(mem)@ == operand_spec(old(mem)@, mode, data).1,
{
    if mode == AddrMode::Immediate {
        word_lo(data)
    } else {
        read_mem(mem, data)
    }
}

/// Result byte of an add-with-carry: the 9-bit unsigned sum reduced
/// modulo 256.
pub open spec fn adc_result(a: u8, operand: u8, carry_in: u8) -> u8 {
    ((a + operand + carry_in) % 0x100) as u8
}

/// Status register after an add-with-carry: negative and zero from the
/// result byte, carry from the 9-bit sum exceeding 0xFF, overflow from the
/// two's-complement sign-mismatch test.
pub open spec fn adc_flags(p: u8, a: u8, operand: u8, carry_in: u8) -> u8 {
    let r = adc_result(a, operand, carry_in);
    (p & (REG_P_MASK_N & REG_P_MASK_V & REG_P_MASK_Z & REG_P_MASK_C)) | (r & REG_P_FLAG_N) | (if r
        == 0 {
        REG_P_FLAG_Z
    } else {
        0
    }) | (if a + operand + carry_in > 0xFF {
        REG_P_FLAG_C
    } else {
        0
    }) | (if (!(a ^ operand) & (a ^ r)) & 0x80 != 0 {
        REG_P_FLAG_V
    } else {
        0
    })
}

/// Result byte of a subtract-with-carry: the accumulator minus the operand
/// minus the carry-in, in two's complement.
pub open spec fn sbc_result(a: u8, operand: u8, carry_in: u8) -> u8 {
    (((a - operand - carry_in) + 0x200) % 0x100) as u8
}

/// Status register after a subtract-with-carry: negative and zero from the
/// result byte, carry set exactly when no borrow occurred, overflow from the
/// same sign-mismatch test as addition.
pub open spec fn sbc_flags(p: u8, a: u8, operand: u8, carry_in: u8) -> u8 {
    let r = sbc_result(a, operand, carry_in);
    (p & (REG_P_MASK_N & REG_P_MASK_V & REG_P_MASK_Z & REG_P_MASK_C)) | (r & REG_P_FLAG_N) | (if r
        == 0 {
        REG_P_FLAG_Z
    } else {
        0
    }) | (if a - operand - carry_in >= 0 {
        REG_P_FLAG_C
    } else {
        0
    }) | (if (!(a ^ operand) & (a ^ r)) & 0x80 != 0 {
        REG_P_FLAG_V
    } else {
        0
    })
}

/// Status register after a compare: negative and zero from the wrapping
/// difference, carry set exactly when the register is at least the operand,
/// unsigned.
pub open spec fn compare_flags(p: u8, reg: u8, operand: u8) -> u8 {
    let r = reg.wrapping_sub(operand);
    (p & (REG_P_MASK_N & REG_P_MASK_Z & REG_P_MASK_C)) | (r & REG_P_FLAG_N) | (if r == 0 {
        REG_P_FLAG_Z
    } else {
        0
    }) | (if reg < operand {
        0
    } else {
        1
    })
}

/// Status register after a shift or rotate: negative and zero from the
/// result byte, carry from the bit shifted out.
pub open spec fn shift_flags(p: u8, r: u8, carry_bit: u8) -> u8 {
    (p & (REG_P_MASK_N & REG_P_MASK_Z & REG_P_MASK_C)) | (r & REG_P_FLAG_N) | (if r == 0 {
        REG_P_FLAG_Z
    } else {
        0
    }) | carry_bit
}

/// Target of a taken branch: the program counter plus the sign-extended
/// 8-bit offset, wrapping within the 64KB space.
pub open spec fn branch_target(pc: u16, off: u8) -> u16 {
    if off < 0x80 {
        pc.wrapping_add(off as u16)
    } else {
        pc.wrapping_sub((0x100 - off) as u16)
    }
}

/// Register file after a conditional branch on the low byte of the resolved
/// operand.
pub open spec fn branch_spec(c: Cpu, data: u16, cond: bool) -> Cpu {
    if cond {
        Cpu { reg_pc: branch_target(c.reg_pc, (data & 0xFF) as u8), ..c }
    } else {
        c
    }
}

/// The semantic effect of one decoded instruction on the registers and the
/// bus, after its operand was resolved to `data`. Mnemonic classes without
/// an instruction body leave the state unchanged here; the interpreter
/// refuses them before this point.
pub open spec fn instr_effect(c: Cpu, m: BusView, op: Opcode, data: u16) -> (Cpu, BusView)
    recommends
        is_implemented(op.code),
{
    match op.code {
        Mnemonic::Lda => {
            let o = operand_spec(m, op.addressing, data);
            (Cpu { reg_a: o.0, reg_p: flags_nz(c.reg_p, o.0), ..c }, o.1)
        },
        Mnemonic::Ldx => {
            let o = operand_spec(m, op.addressing, data);
            (Cpu { reg_x: o.0, reg_p: flags_nz(c.reg_p, o.0), ..c }, o.1)
        },
        Mnemonic::Ldy => {
            let o = operand_spec(m, op.addressing, data);
            (Cpu { reg_y: o.0, reg_p: flags_nz(c.reg_p, o.0), ..c }, o.1)
        },
        Mnemonic::Sta => (c, bus_write_state(m, data, c.reg_a)),
        Mnemonic::Stx => (c, bus_write_state(m, data, c.reg_x)),
        Mnemonic::Sty => (c, bus_write_state(m, data, c.reg_y)),
        Mnemonic::Tax => (Cpu { reg_x: c.reg_a, reg_p: flags_nz(c.reg_p, c.reg_a), ..c }, m),
        Mnemonic::Tay => (Cpu { reg_y: c.reg_a, reg_p: flags_nz(c.reg_p, c.reg_a), ..c }, m),
        Mnemonic::Tsx => (Cpu { reg_x: c.reg_s, reg_p: flags_nz(c.reg_p, c.reg_s), ..c }, m),
        Mnemonic::Txa => (Cpu { reg_a: c.reg_x, reg_p: flags_nz(c.reg_p, c.reg_x), ..c }, m),
        Mnemonic::Txs => (Cpu { reg_s: c.reg_x, ..c }, m),
        Mnemonic::Tya => (Cpu { reg_a: c.reg_y, reg_p: flags_nz(c.reg_p, c.reg_y), ..c }, m),
        Mnemonic::Adc => {
            let o = operand_spec(m, op.addressing, data);
            let carry = c.reg_p & REG_P_FLAG_C;
            (
                Cpu {
                    reg_a: adc_result(c.reg_a, o.0, carry),
                    reg_p: adc_flags(c.reg_p, c.reg_a, o.0, carry),
                    ..c
                },
                o.1,
            )
        },
        Mnemonic::Sbc => {
            let o = operand_spec(m, op.addressing, data);
            let carry = c.reg_p & REG_P_FLAG_C;
            (
                Cpu {
                    reg_a: sbc_result(c.reg_a, o.0, carry),
                    reg_p: sbc_flags(c.reg_p, c.reg_a, o.0, carry),
                    ..c
                },
                o.1,
            )
        },
        Mnemonic::And => {
            let o = operand_spec(m, op.addressing, data);
            let v = c.reg_a & o.0;
            (Cpu { reg_a: v, reg_p: flags_nz(c.reg_p, v), ..c }, o.1)
        },
        Mnemonic::Eor => {
            let o = operand_spec(m, op.addressing, data);
            let v = c.reg_a ^ o.0;
            (Cpu { reg_a: v, reg_p: flags_nz(c.reg_p, v), ..c }, o.1)
        },
        Mnemonic::Ora => {
            let o = operand_spec(m, op.addressing, data);
            let v = c.reg_a | o.0;
            (Cpu { reg_a: v, reg_p: flags_nz(c.reg_p, v), ..c }, o.1)
        },
        Mnemonic::Asl => {
            if op.addressing == AddrMode::Accumulator {
                let v = c.reg_a;
                let r = v << 1;
                (
                    Cpu {
                        reg_a: r,
                        reg_p: shift_flags(c.reg_p, r, (v & REG_P_FLAG_N) >> 7),
                        ..c
                    },
                    m,
                )
            } else {
                let v = bus_read_value(m, data);
                let m1 = bus_read_state(m, data);
                let r = v << 1;
                (
                    Cpu { reg_p: shift_flags(c.reg_p, r, (v & REG_P_FLAG_N) >> 7), ..c },
                    bus_write_state(m1, data, r),
                )
            }
        },
        Mnemonic::Lsr => {
            if op.addressing == AddrMode::Accumulator {
                let v = c.reg_a;
                let r = v >> 1;
                (Cpu { reg_a: r, reg_p: shift_flags(c.reg_p, r, v & 1), ..c }, m)
            } else {
                let v = bus_read_value(m, data);
                let m1 = bus_read_state(m, data);
                let r = v >> 1;
                (
                    Cpu { reg_p: shift_flags(c.reg_p, r, v & 1), ..c },
                    bus_write_state(m1, data, r),
                )
            }
        },
        Mnemonic::Rol => {
            if op.addressing == AddrMode::Accumulator {
                let v = c.reg_a;
                let r = (v << 1) | (c.reg_p & REG_P_FLAG_C);
                (
                    Cpu {
                        reg_a: r,
                        reg_p: shift_flags(c.reg_p, r, (v & 0x80) >> 7),
                        ..c
                    },
                    m,
                )
            } else {
                let v = bus_read_value(m, data);
                let m1 = bus_read_state(m, data);
                let r = (v << 1) | (c.reg_p & REG_P_FLAG_C);
                (
                    Cpu { reg_p: shift_flags(c.reg_p, r, (v & 0x80) >> 7), ..c },
                    bus_write_state(m1, data, r),
                )
            }
        },
        Mnemonic::Ror => {
            if op.addressing == AddrMode::Accumulator {
                let v = c.reg_a;
                let r = (v >> 1) | ((c.reg_p & REG_P_FLAG_C) << 7);
                (Cpu { reg_a: r, reg_p: shift_flags(c.reg_p, r, v & 1), ..c }, m)
            } else {
                let v = bus_read_value(m, data);
                let m1 = bus_read_state(m, data);
                let r = (v >> 1) | ((c.reg_p & REG_P_FLAG_C) << 7);
                (
                    Cpu { reg_p: shift_flags(c.reg_p, r, v & 1), ..c },
                    bus_write_state(m1, data, r),
                )
            }
        },
        Mnemonic::Bit => {
            let v = bus_read_value(m, data);
            let m1 = bus_read_state(m, data);
            let z = if c.reg_a & v == 0 {
                REG_P_FLAG_Z
            } else {
                0
            };
            (
                Cpu {
                    reg_p: (c.reg_p & (REG_P_MASK_N & REG_P_MASK_V & REG_P_MASK_Z)) | (v
                        & REG_P_FLAG_N) | z | (v & REG_P_FLAG_V),
                    ..c
                },
                m1,
            )
        },
        Mnemonic::Cmp => {
            let o = operand_spec(m, op.addressing, data);
            (Cpu { reg_p: compare_flags(c.reg_p, c.reg_a, o.0), ..c }, o.1)
        },
        Mnemonic::Cpx => {
            let o = operand_spec(m, op.addressing, data);
            (Cpu { reg_p: compare_flags(c.reg_p, c.reg_x, o.0), ..c }, o.1)
        },
        Mnemonic::Cpy => {
            let o = operand_spec(m, op.addressing, data);
            (Cpu { reg_p: compare_flags(c.reg_p, c.reg_y, o.0), ..c }, o.1)
        },
        Mnemonic::Inc => {
            let v = bus_read_value(m, data);
            let m1 = bus_read_state(m, data);
            let r = v.wrapping_add(1);
            (Cpu { reg_p: flags_nz(c.reg_p, r), ..c }, bus_write_state(m1, data, r))
        },
        Mnemonic::Dec => {
            let v = bus_read_value(m, data);
            let m1 = bus_read_state(m, data);
            let r = v.wrapping_sub(1);
            (Cpu { reg_p: flags_nz(c.reg_p, r), ..c }, bus_write_state(m1, data, r))
        },
        Mnemonic::Dex => {
            let r = c.reg_x.wrapping_sub(1);
            (Cpu { reg_x: r, reg_p: flags_nz(c.reg_p, r), ..c }, m)
        },
        Mnemonic::Dey => {
            let r = c.reg_y.wrapping_sub(1);
            (Cpu { reg_y: r, reg_p: flags_nz(c.reg_p, r), ..c }, m)
        },
        Mnemonic::Inx => {
            let r = c.reg_x.wrapping_add(1);
            (Cpu { reg_x: r, reg_p: flags_nz(c.reg_p, r), ..c }, m)
        },
        Mnemonic::Iny => {
            let r = c.reg_y.wrapping_add(1);
            (Cpu { reg_y: r, reg_p: flags_nz(c.reg_p, r), ..c }, m)
        },
        Mnemonic::Pha => stack_push_byte_spec(c, m, c.reg_a),
        Mnemonic::Php => stack_push_byte_spec(c, m, c.reg_p),
        Mnemonic::Pla => {
            let popped = stack_pop_byte_spec(c, m);
            (
                Cpu { reg_a: popped.0, reg_p: flags_nz(c.reg_p, popped.0), ..popped.1 },
                popped.2,
            )
        },
        Mnemonic::Plp => {
            let popped = stack_pop_byte_spec(c, m);
            (Cpu { reg_p: flags_nz(popped.0, popped.0), ..popped.1 }, popped.2)
        },
        Mnemonic::Beq => (branch_spec(c, data, c.reg_p & REG_P_FLAG_Z != 0), m),
        Mnemonic::Bne => (branch_spec(c, data, c.reg_p & REG_P_FLAG_Z == 0), m),
        Mnemonic::Bmi => (branch_spec(c, data, c.reg_p & REG_P_FLAG_N != 0), m),
        Mnemonic::Bpl => (branch_spec(c, data, c.reg_p & REG_P_FLAG_N == 0), m),
        Mnemonic::Bvs => (branch_spec(c, data, c.reg_p & REG_P_FLAG_V != 0), m),
        Mnemonic::Bvc => (branch_spec(c, data, c.reg_p & REG_P_FLAG_V == 0), m),
        Mnemonic::Bcs => (branch_spec(c, data, c.reg_p & REG_P_FLAG_C != 0), m),
        Mnemonic::Bcc => (branch_spec(c, data, c.reg_p & REG_P_FLAG_C == 0), m),
        Mnemonic::Jmp => (Cpu { reg_pc: data, ..c }, m),
        Mnemonic::Jsr => {
            let pushed = stack_push_word_spec(c, m, c.reg_pc);
            (Cpu { reg_pc: data, ..pushed.0 }, pushed.1)
        },
        Mnemonic::Rts => {
            let popped = stack_pop_word_spec(c, m);
            (Cpu { reg_pc: popped.0.wrapping_add(1), ..popped.1 }, popped.2)
        },
        Mnemonic::Sei => (Cpu { reg_p: c.reg_p | REG_P_FLAG_I, ..c }, m),
        Mnemonic::Cli => (Cpu { reg_p: c.reg_p & REG_P_MASK_I, ..c }, m),
        Mnemonic::Cld => (Cpu { reg_p: c.reg_p & REG_P_MASK_D, ..c }, m),
        Mnemonic::Clv => (Cpu { reg_p: c.reg_p & REG_P_MASK_V, ..c }, m),
        Mnemonic::Sec => (Cpu { reg_p: c.reg_p | REG_P_FLAG_C, ..c }, m),
        Mnemonic::Sed => (Cpu { reg_p: c.reg_p | REG_P_FLAG_D, ..c }, m),
        Mnemonic::Clc => (Cpu { reg_p: c.reg_p & REG_P_MASK_C, ..c }, m),
        Mnemonic::Brk => (Cpu { reg_p: c.reg_p | REG_P_FLAG_B, ..c }, m),
        Mnemonic::Nop => (c, m),
        _ => (c, m),
    }
}

/// One decoded instruction as a whole: operand resolution followed by the
/// instruction's semantic effect.
pub open spec fn exec_instr_spec(c: Cpu, m: BusView, op: Opcode) -> (Cpu, BusView)
    recommends
        is_implemented(op.code),
{
    let resolved = resolve_spec(c, m, op.addressing);
    instr_effect(resolved.1, resolved.2, op, resolved.0)
}

/// What one step returns: the executed instruction byte, or the fatal
/// unimplemented-instruction condition naming that byte and the program
/// counter it was fetched from.
pub open spec fn step_result(c: Cpu, m: BusView) -> Result<u8, CpuError> {
    let fetched = fetch_byte_spec(c, m);
    if is_implemented(opcode_spec(fetched.0).code) {
        Ok(fetched.0)
    } else {
        Err(CpuError::UnimplementedInstruction { opcode: fetched.0, pc: c.reg_pc })
    }
}

/// Registers and bus after one step: the fetched instruction fully executed,
/// or, on the fatal condition, only the instruction byte consumed.
pub open spec fn step_state(c: Cpu, m: BusView) -> (Cpu, BusView) {
    let fetched = fetch_byte_spec(c, m);
    let op = opcode_spec(fetched.0);
    if is_implemented(op.code) {
        exec_instr_spec(fetched.1, fetched.2, op)
    } else {
        (fetched.1, fetched.2)
    }
}

/// Adds the operand and the carry-in to the accumulator.
fn adc_exec(cpu: &mut Cpu, v: u8)
    ensures
        *final(cpu) == (Cpu {
            reg_a: adc_result(old(cpu).reg_a, v, old(cpu).reg_p & REG_P_FLAG_C),
            reg_p: adc_flags(old(cpu).reg_p, old(cpu).reg_a, v, old(cpu).reg_p & REG_P_FLAG_C),
            ..*old(cpu)
        }),
{
    let carry = cpu.reg_p & REG_P_FLAG_C;
    let sum: u32 = (cpu.reg_a as u32) + (v as u32) + (carry as u32);
    let r: u8 = (sum % 0x100) as u8;
    cpu.reg_p = (cpu.reg_p & (REG_P_MASK_N & REG_P_MASK_V & REG_P_MASK_Z & REG_P_MASK_C)) | (r
        & REG_P_FLAG_N) | (if r == 0 {
        REG_P_FLAG_Z
    } else {
        0
    }) | (if sum > 0xFF {
        REG_P_FLAG_C
    } else {
        0
    }) | (if (!(cpu.reg_a ^ v) & (cpu.reg_a ^ r)) & 0x80 != 0 {
        REG_P_FLAG_V
    } else {
        0
    });
    cpu.reg_a = r;
}

/// Subtracts the operand and the carry-in from the accumulator.
fn sbc_exec(cpu: &mut Cpu, v: u8)
    ensures
        *final(cpu) == (Cpu {
            reg_a: sbc_result(old(cpu).reg_a, v, old(cpu).reg_p & REG_P_FLAG_C),
            reg_p: sbc_flags(old(cpu).reg_p, old(cpu).reg_a, v, old(cpu).reg_p & REG_P_FLAG_C),
            ..*old(cpu)
        }),
{
    let carry = cpu.reg_p & REG_P_FLAG_C;
    let diff: i32 = (cpu.reg_a as i32) - (v as i32) - (carry as i32);
    let r: u8 = ((diff + 0x200) % 0x100) as u8;
    cpu.reg_p = (cpu.reg_p & (REG_P_MASK_N & REG_P_MASK_V & REG_P_MASK_Z & REG_P_MASK_C)) | (r
        & REG_P_FLAG_N) | (if r == 0 {
        REG_P_FLAG_Z
    } else {
        0
    }) | (if diff >= 0 {
        REG_P_FLAG_C
    } else {
        0
    }) | (if (!(cpu.reg_a ^ v) & (cpu.reg_a ^ r)) & 0x80 != 0 {
        REG_P_FLAG_V
    } else {
        0
    });
    cpu.reg_a = r;
}

/// Compares a register against the operand through the status flags.
fn compare_exec(cpu: &mut Cpu, reg: u8, v: u8)
    ensures
        *final(cpu) == (Cpu { reg_p: compare_flags(old(cpu).reg_p, reg, v), ..*old(cpu) }),
{
    let r = reg.wrapping_sub(v);
    cpu.reg_p = (cpu.reg_p & (REG_P_MASK_N & REG_P_MASK_Z & REG_P_MASK_C)) | (r & REG_P_FLAG_N) | (
    if r == 0 {
        REG_P_FLAG_Z
    } else {
        0
    }) | (if reg < v {
        0
    } else {
        1
    });
}

/// Applies the shift/rotate flag rule to the status register.
fn shift_update(cpu: &mut Cpu, r: u8, carry_bit: u8)
    ensures
        *final(cpu) == (Cpu { reg_p: shift_flags(old(cpu).reg_p, r, carry_bit), ..*old(cpu) }),
{
    cpu.reg_p = (cpu.reg_p & (REG_P_MASK_N & REG_P_MASK_Z & REG_P_MASK_C)) | (r & REG_P_FLAG_N) | (
    if r == 0 {
        REG_P_FLAG_Z
    } else {
        0
    }) | carry_bit;
}

/// Adds the sign-extended branch offset to the program counter when the
/// branch condition holds.
fn do_branch(cpu: &mut Cpu, data: u16, cond: bool)
    ensures
        *final(cpu) == branch_spec(*old(cpu), data, cond),
{
    if cond {
        let off = word_lo(data);
        if off < 0x80 {
            cpu.reg_pc = cpu.reg_pc.wrapping_add(off as u16);
        } else {
            cpu.reg_pc = cpu.reg_pc.wrapping_sub(0x100 - (off as u16));
        }
    }
}

/// Executes one decoded instruction: resolves its operand, then applies its
/// semantic effect to the registers and the bus.
#[verifier::rlimit(50)]
fn exec_instructions(cpu: &mut Cpu, mem: &mut CpuMemory, op: &Opcode)
    requires
        mem_wf(old(mem)@),
        is_implemented(op.code),
    ensures
        mem_wf(final(mem)@),
        *final(cpu) == exec_instr_spec(*old(cpu), old(mem)@, *op).0,
        final(mem)@ == exec_instr_spec(*old(cpu), old(mem)@, *op).1,
{
    let data = read_by_addressing(cpu, mem, op);
    match op.code {
        Mnemonic::Lda => {
            let v = operand_value(mem, op.addressing, data);
            cpu.reg_a = v;
            cpu.reg_p = update_nz(cpu.reg_p, v);
        },
        Mnemonic::Ldx => {
            let v = operand_value(mem, op.addressing, data);
            cpu.reg_x = v;
            cpu.reg_p = update_nz(cpu.reg_p, v);
        },
        Mnemonic::Ldy => {
            let v = operand_value(mem, op.addressing, data);
            cpu.reg_y = v;
            cpu.reg_p = update_nz(cpu.reg_p, v);
        },
        Mnemonic::Sta => {
            write_mem(mem, data, cpu.reg_a);
        },
        Mnemonic::Stx => {
            write_mem(mem, data, cpu.reg_x);
        },
        Mnemonic::Sty => {
            write_mem(mem, data, cpu.reg_y);
        },
        Mnemonic::Tax => {
            cpu.reg_x = cpu.reg_a;
            cpu.reg_p = update_nz(cpu.reg_p, cpu.reg_x);
        },
        Mnemonic::Tay => {
            cpu.reg_y = cpu.reg_a;
            cpu.reg_p = update_nz(cpu.reg_p, cpu.reg_y);
        },
        Mnemonic::Tsx => {
            cpu.reg_x = cpu.reg_s;
            cpu.reg_p = update_nz(cpu.reg_p, cpu.reg_x);
        },
        Mnemonic::Txa => {
            cpu.reg_a = cpu.reg_x;
            cpu.reg_p = update_nz(cpu.reg_p, cpu.reg_a);
        },
        Mnemonic::Txs => {
            cpu.reg_s = cpu.reg_x;
        },
        Mnemonic::Tya => {
            cpu.reg_a = cpu.reg_y;
            cpu.reg_p = update_nz(cpu.reg_p, cpu.reg_a);
        },
        Mnemonic::Adc => {
            let v = operand_value(mem, op.addressing, data);
            adc_exec(cpu, v);
        },
        Mnemonic::Sbc => {
            let v = operand_value(mem, op.addressing, data);
            sbc_exec(cpu, v);
        },
        Mnemonic::And => {
            let v = operand_value(mem, op.addressing, data);
            cpu.reg_a = cpu.reg_a & v;
            cpu.reg_p = update_nz(cpu.reg_p, cpu.reg_a);
        },
        Mnemonic::Eor => {
            let v = operand_value(mem, op.addressing, data);
            cpu.reg_a = cpu.reg_a ^ v;
            cpu.reg_p = update_nz(cpu.reg_p, cpu.reg_a);
        },
        Mnemonic::Ora => {
            let v = operand_value(mem, op.addressing, data);
            cpu.reg_a = cpu.reg_a | v;
            cpu.reg_p = update_nz(cpu.reg_p, cpu.reg_a);
        },
        Mnemonic::Asl => {
            if op.addressing == AddrMode::Accumulator {
                let v = cpu.reg_a;
                let r = v << 1;
                cpu.reg_a = r;
                shift_update(cpu, r, (v & REG_P_FLAG_N) >> 7);
            } else {
                let v = read_mem(mem, data);
                let r = v << 1;
                write_mem(mem, data, r);
                shift_update(cpu, r, (v & REG_P_FLAG_N) >> 7);
            }
        },
        Mnemonic::Lsr => {
            if op.addressing == AddrMode::Accumulator {
                let v = cpu.reg_a;
                let r = v >> 1;
                cpu.reg_a = r;
                shift_update(cpu, r, v & 1);
            } else {
                let v = read_mem(mem, data);
                let r = v >> 1;
                write_mem(mem, data, r);
                shift_update(cpu, r, v & 1);
            }
        },
        Mnemonic::Rol => {
            if op.addressing == AddrMode::Accumulator {
                let v = cpu.reg_a;
                let r = (v << 1) | (cpu.reg_p & REG_P_FLAG_C);
                cpu.reg_a = r;
                shift_update(cpu, r, (v & 0x80) >> 7);
            } else {
                let v = read_mem(mem, data);
                let r = (v << 1) | (cpu.reg_p & REG_P_FLAG_C);
                write_mem(mem, data, r);
                shift_update(cpu, r, (v & 0x80) >> 7);
            }
        },
        Mnemonic::Ror => {
            if op.addressing == AddrMode::Accumulator {
                let v = cpu.reg_a;
                let r = (v >> 1) | ((cpu.reg_p & REG_P_FLAG_C) << 7);
                cpu.reg_a = r;
                shift_update(cpu, r, v & 1);
            } else {
                let v = read_mem(mem, data);
                let r = (v >> 1) | ((cpu.reg_p & REG_P_FLAG_C) << 7);
                write_mem(mem, data, r);
                shift_update(cpu, r, v & 1);
            }
        },
        Mnemonic::Bit => {
            let v = read_mem(mem, data);
            let z = if cpu.reg_a & v == 0 {
                REG_P_FLAG_Z
            } else {
                0
            };
            cpu.reg_p = (cpu.reg_p & (REG_P_MASK_N & REG_P_MASK_V & REG_P_MASK_Z)) | (v
                & REG_P_FLAG_N) | z | (v & REG_P_FLAG_V);
        },
        Mnemonic::Cmp => {
            let v = operand_value(mem, op.addressing, data);
            let reg = cpu.reg_a;
            compare_exec(cpu, reg, v);
        },
        Mnemonic::Cpx => {
            let v = operand_value(mem, op.addressing, data);
            let reg = cpu.reg_x;
            compare_exec(cpu, reg, v);
        },
        Mnemonic::Cpy => {
            let v = operand_value(mem, op.addressing, data);
            let reg = cpu.reg_y;
            compare_exec(cpu, reg, v);
        },
        Mnemonic::Inc => {
            let v = read_mem(mem, data);
            let r = v.wrapping_add(1);
            write_mem(mem, data, r);
            cpu.reg_p = update_nz(cpu.reg_p, r);
        },
        Mnemonic::Dec => {
            let v = read_mem(mem, data);
            let r = v.wrapping_sub(1);
            write_mem(mem, data, r);
            cpu.reg_p = update_nz(cpu.reg_p, r);
        },
        Mnemonic::Dex => {
            cpu.reg_x = cpu.reg_x.wrapping_sub(1);
            cpu.reg_p = update_nz(cpu.reg_p, cpu.reg_x);
        },
        Mnemonic::Dey => {
            cpu.reg_y = cpu.reg_y.wrapping_sub(1);
            cpu.reg_p = update_nz(cpu.reg_p, cpu.reg_y);
        },
        Mnemonic::Inx => {
            cpu.reg_x = cpu.reg_x.wrapping_add(1);
            cpu.reg_p = update_nz(cpu.reg_p, cpu.reg_x);
        },
        Mnemonic::Iny => {
            cpu.reg_y = cpu.reg_y.wrapping_add(1);
            cpu.reg_p = update_nz(cpu.reg_p, cpu.reg_y);
        },
        Mnemonic::Pha => {
            let v = cpu.reg_a;
            stack_push_byte(cpu, mem, v);
        },
        Mnemonic::Php => {
            let v = cpu.reg_p;
            stack_push_byte(cpu, mem, v);
        },
        Mnemonic::Pla => {
            let v = stack_pop_byte(cpu, mem);
            cpu.reg_a = v;
            cpu.reg_p = update_nz(cpu.reg_p, v);
        },
        Mnemonic::Plp => {
            let v = stack_pop_byte(cpu, mem);
            cpu.reg_p = update_nz(v, v);
        },
        Mnemonic::Beq => {
            let cond = cpu.reg_p & REG_P_FLAG_Z != 0;
            do_branch(cpu, data, cond);
        },
        Mnemonic::Bne => {
            let cond = cpu.reg_p & REG_P_FLAG_Z == 0;
            do_branch(cpu, data, cond);
        },
        Mnemonic::Bmi => {
            let cond = cpu.reg_p & REG_P_FLAG_N != 0;
            do_branch(cpu, data, cond);
        },
        Mnemonic::Bpl => {
            let cond = cpu.reg_p & REG_P_FLAG_N == 0;
            do_branch(cpu, data, cond);
        },
        Mnemonic::Bvs => {
            let cond = cpu.reg_p & REG_P_FLAG_V != 0;
            do_branch(cpu, data, cond);
        },
        Mnemonic::Bvc => {
            let cond = cpu.reg_p & REG_P_FLAG_V == 0;
            do_branch(cpu, data, cond);
        },
        Mnemonic::Bcs => {
            let cond = cpu.reg_p & REG_P_FLAG_C != 0;
            do_branch(cpu, data, cond);
        },
        Mnemonic::Bcc => {
            let cond = cpu.reg_p & REG_P_FLAG_C == 0;
            do_branch(cpu, data, cond);
        },
        Mnemonic::Jmp => {
            cpu.reg_pc = data;
        },
        Mnemonic::Jsr => {
            let ret = cpu.reg_pc;
            stack_push_word(cpu, mem, ret);
            cpu.reg_pc = data;
        },
        Mnemonic::Rts => {
            let addr = stack_pop_word(cpu, mem);
            cpu.reg_pc = addr.wrapping_add(1);
        },
        Mnemonic::Sei => {
            cpu.reg_p = cpu.reg_p | REG_P_FLAG_I;
        },
        Mnemonic::Cli => {
            cpu.reg_p = cpu.reg_p & REG_P_MASK_I;
        },
        Mnemonic::Cld => {
            cpu.reg_p = cpu.reg_p & REG_P_MASK_D;
        },
        Mnemonic::Clv => {
            cpu.reg_p = cpu.reg_p & REG_P_MASK_V;
        },
        Mnemonic::Sec => {
            cpu.reg_p = cpu.reg_p | REG_P_FLAG_C;
        },
        Mnemonic::Sed => {
            cpu.reg_p = cpu.reg_p | REG_P_FLAG_D;
        },
        Mnemonic::Clc => {
            cpu.reg_p = cpu.reg_p & REG_P_MASK_C;
        },
        Mnemonic::Brk => {
            cpu.reg_p = cpu.reg_p | REG_P_FLAG_B;
        },
        Mnemonic::Nop => {},
        _ => {},
    }
}

/// One fetch-decode-execute step: fetches the instruction byte under the
/// program counter, looks its descriptor up, resolves the operand and
/// executes the semantic effect, returning the executed instruction byte.
/// A byte decoding to a mnemonic class without an instruction body is the
/// fatal unimplemented-instruction condition: the error names the byte and
/// the program counter it was fetched from, and nothing past the fetch
/// happens.
pub fn run(cpu: &mut Cpu, mem: &mut CpuMemory) -> (r: Result<u8, CpuError>)
    requires
        mem_wf(old(mem)@),
    ensures
        mem_wf(final(mem)@),
        r == step_result(*old(cpu), old(mem)@),
        *final(cpu) == step_state(*old(cpu), old(mem)@).0,
        final(mem)@ == step_state(*old(cpu), old(mem)@).1,
{
    let pc = cpu.reg_pc;
    let code = fetch_pc_byte(cpu, mem);
    let op = opcode_lookup(code);
    if !mnemonic_implemented(op.code) {
        return Err(CpuError::UnimplementedInstruction { opcode: code, pc });
    }
    exec_instructions(cpu, mem, &op);
    Ok(code)
}

/// Add-with-carry computes exactly the 9-bit unsigned sum: for every
/// accumulator value, operand and carry-in, the result byte is the sum
/// modulo 256, the carry flag says whether the sum exceeded 0xFF, negative
/// and zero describe the result byte, and the overflow flag equals the
/// two's-complement sign-mismatch test, which holds exactly when the signed
/// sum falls outside -128..=127.
pub proof fn lemma_adc_arithmetic(p: u8, a: u8, operand: u8, carry_in: u8)
    requires
        carry_in == 0 || carry_in == 1,
    ensures
        ({
            let r = adc_result(a, operand, carry_in);
            let np = adc_flags(p, a, operand, carry_in);
            &&& r == (a + operand + carry_in) % 0x100
            &&& (np & REG_P_FLAG_C != 0) <==> (a + operand + carry_in > 0xFF)
            &&& (np & REG_P_FLAG_Z != 0) <==> (r == 0)
            &&& (np & REG_P_FLAG_N != 0) <==> (r >= 0x80)
            &&& (np & REG_P_FLAG_V != 0) <==> ((!(a ^ operand) & (a ^ r)) & 0x80 != 0)
            &&& (np & REG_P_FLAG_V != 0) <==> !(-128 <= signed_val(a) + signed_val(operand)
                + carry_in <= 127)
        }),
{
    let r = adc_result(a, operand, carry_in);
    let np = adc_flags(p, a, operand, carry_in);
    assert((np & 0x01 != 0 <==> a + operand + carry_in > 0xFF) && (np & 0x02 != 0 <==> r == 0) && (
    np & 0x80 != 0 <==> r >= 0x80) && (np & 0x40 != 0 <==> (!(a ^ operand) & (a ^ r)) & 0x80 != 0)
        && (np & 0x40 != 0 <==> !(-128 <= (if a < 0x80 {
        a as int
    } else {
        a - 0x100
    }) + (if operand < 0x80 {
        operand as int
    } else {
        operand - 0x100
    }) + carry_in <= 127))) by (bit_vector)
        requires
            carry_in == 0 || carry_in == 1,
            r == ((a + operand + carry_in) % 0x100) as u8,
            np == adc_flags(p, a, operand, carry_in),
    ;
}

/// The signed reading of a byte in two's complement.
pub open spec fn signed_val(v: u8) -> int {
    if v < 0x80 {
        v as int
    } else {
        v - 0x100
    }
}

/// Zero-page indexed addressing wraps within the zero page: the effective
/// address is the fetched base byte plus the index register, modulo 256,
/// never an address above 0x00FF.
pub proof fn lemma_zero_page_x_wraps(c: Cpu, m: BusView)
    ensures
        ({
            let resolved = resolve_spec(c, m, AddrMode::ZeroPageX);
            &&& resolved.0 == (bus_read_value(m, c.reg_pc) + c.reg_x) % 0x100
            &&& resolved.0 < 0x100
        }),
{
}

/// Popping a word directly after pushing one returns the pushed word, and
/// the stack pointer returns to its starting value, from any well-formed bus
/// state, any register file and any word.
pub proof fn lemma_stack_word_round_trip(c: Cpu, m: BusView, v: u16)
    requires
        mem_wf(m),
    ensures
        ({
            let pushed = stack_push_word_spec(c, m, v);
            let popped = stack_pop_word_spec(pushed.0, pushed.1);
            &&& popped.0 == v
            &&& popped.1.reg_s == c.reg_s
        }),
{
    let s = c.reg_s;
    let s1 = s.wrapping_add(1);
    let a0 = 0x0100u16 | (s as u16);
    let a1 = 0x0100u16 | (s1 as u16);
    assert(0x0100 <= a0 < 0x0200 && 0x0100 <= a1 < 0x0200 && a0 != a1) by (bit_vector)
        requires
            a0 == 0x0100u16 | (s as u16),
            a1 == 0x0100u16 | (s1 as u16),
            s1 == if s + 1 > 255 { (s + 1 - 256) as u8 } else { (s + 1) as u8 },
    ;
    let lo = (v & 0xFF) as u8;
    let hi = ((v & 0xFF00) >> 8) as u8;
    assert(((hi as u16) << 8) | (lo as u16) == v) by (bit_vector)
        requires
            lo == (v & 0xFF) as u8,
            hi == ((v & 0xFF00) >> 8) as u8,
    ;
}

} // verus!
