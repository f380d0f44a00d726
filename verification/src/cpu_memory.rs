//! The memory bus: routes every 16-bit address to work RAM, extended RAM,
//! battery-backed RAM, program ROM or the graphics unit's MMIO ports, making
//! them appear as one flat 64KB address space with read-only and mirroring
//! behavior.
use vstd::prelude::*;
use vstd::pervasive::VecAdditionalExecFns;

use crate::ppu;
use crate::ppu::Ppu;
use crate::ppu::PpuView;
use crate::ppu::ppu_read_state;
use crate::ppu::ppu_read_value;
use crate::ppu::ppu_wf;
use crate::ppu::ppu_write_state;

verus! {

/// Mathematical model of the bus: the four memory regions it owns and the
/// graphics unit it forwards MMIO accesses to.
pub ghost struct BusView {
    /// Work RAM, 2KB.
    pub wram: Seq<u8>,
    /// Extended RAM.
    pub ext_ram: Seq<u8>,
    /// Battery-backed save RAM.
    pub backup_ram: Seq<u8>,
    /// Program ROM, one or two 16KB banks, read-only.
    pub program_rom: Seq<u8>,
    /// The graphics unit.
    pub ppu: PpuView,
}

/// The memory bus. It exclusively owns all RAM/ROM buffers and the graphics
/// unit; the processor borrows it for every memory effect.
pub struct CpuMemory {
    /// Work RAM, 2KB.
    pub wram: Vec<u8>,
    /// Extended RAM.
    pub ext_ram: Vec<u8>,
    /// Battery-backed save RAM.
    pub backup_ram: Vec<u8>,
    /// Program ROM, read-only through the bus.
    pub program_rom: Vec<u8>,
    /// The graphics unit, reached through the MMIO ports the bus forwards.
    pub ppu: Ppu,
}

impl View for CpuMemory {
    type V = BusView;

    open spec fn view(&self) -> BusView {
        BusView {
            wram: self.wram@,
            ext_ram: self.ext_ram@,
            backup_ram: self.backup_ram@,
            program_rom: self.program_rom@,
            ppu: self.ppu@,
        }
    }
}

/// Size of work RAM in bytes.
pub const WRAM_SIZE: usize = 0x800;
/// Size of extended RAM in bytes.
pub const EXT_RAM_SIZE: usize = 0x1FE0;
/// Size of battery-backed RAM in bytes.
pub const BACKUP_RAM_SIZE: usize = 0x2000;
/// Size of one program-ROM bank in bytes.
pub const ROM_BANK_SIZE: usize = 0x4000;

/// Well-formedness: every region has its fixed size; the cartridge supplies
/// one or two 16KB program-ROM banks.
pub open spec fn mem_wf(m: BusView) -> bool {
    &&& m.wram.len() == WRAM_SIZE
    &&& m.ext_ram.len() == EXT_RAM_SIZE
    &&& m.backup_ram.len() == BACKUP_RAM_SIZE
    &&& (m.program_rom.len() == ROM_BANK_SIZE || m.program_rom.len() == 2 * ROM_BANK_SIZE)
    &&& ppu_wf(m.ppu)
}

/// Value returned by a read of the given address: work RAM below 0x0800,
/// the graphics unit's ports at 0x2000-0x2007 and 0x4014, extended RAM from
/// 0x4020, battery-backed RAM from 0x6000, program ROM from 0x8000 with the
/// single bank mirrored above 0xC000 when the cartridge supplies only one,
/// and zero from every unmapped range.
pub open spec fn bus_read_value(m: BusView, addr: u16) -> u8 {
    if addr < 0x0800 {
        m.wram[addr as int]
    } else if addr < 0x2000 {
        0
    } else if addr < 0x2008 || addr == 0x4014 {
        ppu_read_value(m.ppu, addr)
    } else if addr < 0x4020 {
        0
    } else if addr < 0x6000 {
        m.ext_ram[addr - 0x4020]
    } else if addr < 0x8000 {
        m.backup_ram[addr - 0x6000]
    } else if addr < 0xC000 {
        m.program_rom[addr - 0x8000]
    } else if m.program_rom.len() == ROM_BANK_SIZE {
        m.program_rom[addr - 0xC000]
    } else {
        m.program_rom[addr - 0x8000]
    }
}

/// State after a read: only a read forwarded to the graphics unit has a side
/// effect.
pub open spec fn bus_read_state(m: BusView, addr: u16) -> BusView {
    if (0x2000 <= addr && addr < 0x2008) || addr == 0x4014 {
        BusView { ppu: ppu_read_state(m.ppu, addr), ..m }
    } else {
        m
    }
}

/// State after a write: stores into the RAM region owning the address,
/// forwards the MMIO range to the graphics unit, and discards writes to
/// unmapped ranges and to the read-only program ROM.
pub open spec fn bus_write_state(m: BusView, addr: u16, value: u8) -> BusView {
    if addr < 0x0800 {
        BusView { wram: m.wram.update(addr as int, value), ..m }
    } else if addr < 0x2000 {
        m
    } else if addr < 0x2008 || addr == 0x4014 {
        BusView { ppu: ppu_write_state(m.ppu, addr, value), ..m }
    } else if addr < 0x4020 {
        m
    } else if addr < 0x6000 {
        BusView { ext_ram: m.ext_ram.update(addr - 0x4020, value), ..m }
    } else if addr < 0x8000 {
        BusView { backup_ram: m.backup_ram.update(addr - 0x6000, value), ..m }
    } else {
        m
    }
}

/// Little-endian word read: the low byte at `addr`, the high byte at the
/// following address, each through the bus.
pub open spec fn bus_read_word_value(m: BusView, addr: u16) -> u16 {
    let lo = bus_read_value(m, addr);
    let hi = bus_read_value(bus_read_state(m, addr), addr.wrapping_add(1));
    ((hi as u16) << 8) | (lo as u16)
}

/// State after a word read: both byte reads applied in order.
pub open spec fn bus_read_word_state(m: BusView, addr: u16) -> BusView {
    bus_read_state(bus_read_state(m, addr), addr.wrapping_add(1))
}

/// State after a little-endian word write: the low byte stored at `addr`,
/// the high byte at the following address.
pub open spec fn bus_write_word_state(m: BusView, addr: u16, data: u16) -> BusView {
    bus_write_state(
        bus_write_state(m, addr, (data & 0xFF) as u8),
        addr.wrapping_add(1),
        ((data & 0xFF00) >> 8) as u8,
    )
}

/// Creates a bus owning zeroed RAM regions, the given program ROM and the
/// given graphics unit.
pub fn new_memory(rom_data: &Vec<u8>, ppu: Ppu) -> (mem: CpuMemory)
    requires
        rom_data@.len() == ROM_BANK_SIZE || rom_data@.len() == 2 * ROM_BANK_SIZE,
        ppu_wf(ppu@),
    ensures
        mem_wf(mem@),
        mem@.program_rom == rom_data@,
        mem@.ppu == ppu@,
        forall|i: int| 0 <= i < WRAM_SIZE ==> mem@.wram[i] == 0,
        forall|i: int| 0 <= i < EXT_RAM_SIZE ==> mem@.ext_ram[i] == 0,
        forall|i: int| 0 <= i < BACKUP_RAM_SIZE ==> mem@.backup_ram[i] == 0,
{
    let mut program_rom: Vec<u8> = Vec::new();
    let mut i: usize = 0;
    while i < rom_data.len()
        invariant
            i == program_rom@.len(),
            i <= rom_data@.len(),
            forall|j: int| 0 <= j < i ==> program_rom@[j] == rom_data@[j],
        decreases rom_data@.len() - i,
    {
        program_rom.push(rom_data[i]);
        i = i + 1;
    }
    proof {
        assert(program_rom@ =~= rom_data@);
    }
    CpuMemory {
        wram: zero_vec(WRAM_SIZE),
        ext_ram: zero_vec(EXT_RAM_SIZE),
        backup_ram: zero_vec(BACKUP_RAM_SIZE),
        program_rom,
        ppu,
    }
}

/// A vector of `n` zero bytes.
fn zero_vec(n: usize) -> (v: Vec<u8>)
    ensures
        v@.len() == n,
        forall|i: int| 0 <= i < n ==> v@[i] == 0,
{
    let mut v: Vec<u8> = Vec::new();
    let mut i: usize = 0;
    while i < n
        invariant
            i == v@.len(),
            i <= n,
            forall|j: int| 0 <= j < i ==> v@[j] == 0,
        decreases n - i,
    {
        v.push(0);
        i = i + 1;
    }
    v
}

/// Reads the byte the bus routes the address to. Unmapped ranges read as
/// zero; reads of the MMIO range reach the graphics unit and can change its
/// state.
pub fn read_mem(mem: &mut CpuMemory, addr: u16) -> (value: u8)
    requires
        mem_wf(old(mem)@),
    ensures
        mem_wf(final(mem)@),
        value == bus_read_value(old(mem)@, addr),
        final(mem)@ == bus_read_state(old(mem)@, addr),
{
    if addr < 0x0800 {
        mem.wram[addr as usize]
    } else if addr < 0x2000 {
        0
    } else if addr < 0x2008 || addr == 0x4014 {
        ppu::read_io(&mut mem.ppu, addr)
    } else if addr < 0x4020 {
        0
    } else if addr < 0x6000 {
        mem.ext_ram[(addr - 0x4020) as usize]
    } else if addr < 0x8000 {
        mem.backup_ram[(addr - 0x6000) as usize]
    } else if addr < 0xC000 {
        mem.program_rom[(addr - 0x8000) as usize]
    } else if mem.program_rom.len() == ROM_BANK_SIZE {
        mem.program_rom[(addr - 0xC000) as usize]
    } else {
        mem.program_rom[(addr - 0x8000) as usize]
    }
}

/// Writes the byte to whatever the bus routes the address to. Writes to
/// unmapped ranges and to the read-only program ROM are discarded.
pub fn write_mem(mem: &mut CpuMemory, addr: u16, value: u8)
    requires
        mem_wf(old(mem)@),
    ensures
        mem_wf(final(mem)@),
        final(mem)@ == bus_write_state(old(mem)@, addr, value),
{
    if addr < 0x0800 {
        mem.wram.set(addr as usize, value);
    } else if addr < 0x2000 {
    } else if addr < 0x2008 || addr == 0x4014 {
        ppu::write_io(&mut mem.ppu, addr, value);
    } else if addr < 0x4020 {
    } else if addr < 0x6000 {
        mem.ext_ram.set((addr - 0x4020) as usize, value);
    } else if addr < 0x8000 {
        mem.backup_ram.set((addr - 0x6000) as usize, value);
    }
}

/// Reads a little-endian word: low byte at `addr`, high byte at the address
/// after it.
pub fn read_mem_word(mem: &mut CpuMemory, addr: u16) -> (data: u16)
    requires
        mem_wf(old(mem)@),
    ensures
        mem_wf(final(mem)@),
        data == bus_read_word_value(old(mem)@, addr),
        final(mem)@ == bus_read_word_state(old(mem)@, addr),
{
    let data1 = read_mem(mem, addr) as u16;
    let data2 = read_mem(mem, addr.wrapping_add(1)) as u16;
    (data2 << 8) | data1
}

/// The low byte of a word.
pub fn word_lo(data: u16) -> (lo: u8)
    ensures
        lo == (data & 0xFF) as u8,
{
    proof {
        assert(data & 0xFF <= 0xFF) by (bit_vector);
    }
    (data & 0xFF) as u8
}

/// The high byte of a word.
pub fn word_hi(data: u16) -> (hi: u8)
    ensures
        hi == ((data & 0xFF00) >> 8) as u8,
{
    proof {
        assert((data & 0xFF00) >> 8 <= 0xFF) by (bit_vector);
    }
    ((data & 0xFF00) >> 8) as u8
}

/// Writes a little-endian word: low byte to `addr`, high byte to the address
/// after it.
pub fn write_mem_word(mem: &mut CpuMemory, addr: u16, data: u16)
    requires
        mem_wf(old(mem)@),
    ensures
        mem_wf(final(mem)@),
        final(mem)@ == bus_write_word_state(old(mem)@, addr, data),
{
    let lo = word_lo(data);
    write_mem(mem, addr, lo);
    let hi = word_hi(data);
    write_mem(mem, addr.wrapping_add(1), hi);
}

/// A cartridge that supplies a single 16KB program-ROM bank has it mirrored:
/// every read above 0xC000 returns the byte read one bank lower.
pub proof fn lemma_rom_mirroring(m: BusView, addr: u16)
    requires
        mem_wf(m),
        m.program_rom.len() == ROM_BANK_SIZE,
        0xC000 <= addr,
    ensures
        bus_read_value(m, addr) == bus_read_value(m, (addr - 0x4000) as u16),
{
}

} // verus!
