use nes_core::cpu::read_word;
use nes_core::cpu::write_word;
use nes_core::cpu_memory::new_memory;
use nes_core::cpu_memory::read_mem;
use nes_core::cpu_memory::read_mem_word;
use nes_core::cpu_memory::write_mem;
use nes_core::cpu_memory::write_mem_word;
use nes_core::cpu_memory::CpuMemory;
use nes_core::ppu::new_ppu;

fn bus_with_rom(rom: Vec<u8>) -> CpuMemory {
    let ppu = new_ppu(&Vec::new());
    new_memory(&rom, ppu)
}

fn bus_16k() -> CpuMemory {
    bus_with_rom(vec![0u8; 0x4000])
}

#[test]
fn work_ram_reads_back_writes() {
    let mut mem = bus_16k();
    write_mem(&mut mem, 0x0000, 0x11);
    write_mem(&mut mem, 0x07FF, 0x22);
    assert_eq!(read_mem(&mut mem, 0x0000), 0x11);
    assert_eq!(read_mem(&mut mem, 0x07FF), 0x22);
}

#[test]
fn unmapped_ranges_read_zero_and_discard_writes() {
    let mut mem = bus_16k();
    write_mem(&mut mem, 0x0800, 0x33);
    write_mem(&mut mem, 0x1FFF, 0x33);
    write_mem(&mut mem, 0x2008, 0x33);
    write_mem(&mut mem, 0x3FFF, 0x33);
    write_mem(&mut mem, 0x4000, 0x33);
    write_mem(&mut mem, 0x401F, 0x33);
    assert_eq!(read_mem(&mut mem, 0x0800), 0);
    assert_eq!(read_mem(&mut mem, 0x1FFF), 0);
    assert_eq!(read_mem(&mut mem, 0x2008), 0);
    assert_eq!(read_mem(&mut mem, 0x3FFF), 0);
    assert_eq!(read_mem(&mut mem, 0x4000), 0);
    assert_eq!(read_mem(&mut mem, 0x401F), 0);
}

#[test]
fn extended_and_backup_ram_ranges() {
    let mut mem = bus_16k();
    write_mem(&mut mem, 0x4020, 0x44);
    write_mem(&mut mem, 0x5FFF, 0x55);
    write_mem(&mut mem, 0x6000, 0x66);
    write_mem(&mut mem, 0x7FFF, 0x77);
    assert_eq!(read_mem(&mut mem, 0x4020), 0x44);
    assert_eq!(read_mem(&mut mem, 0x5FFF), 0x55);
    assert_eq!(read_mem(&mut mem, 0x6000), 0x66);
    assert_eq!(read_mem(&mut mem, 0x7FFF), 0x77);
}

#[test]
fn program_rom_is_read_only() {
    let mut rom = vec![0u8; 0x4000];
    rom[0] = 0xAB;
    let mut mem = bus_with_rom(rom);
    write_mem(&mut mem, 0x8000, 0x99);
    assert_eq!(read_mem(&mut mem, 0x8000), 0xAB);
}

#[test]
fn single_bank_rom_is_mirrored() {
    let mut rom = vec![0u8; 0x4000];
    rom[0x0000] = 0xAB;
    rom[0x3FFF] = 0xCD;
    let mut mem = bus_with_rom(rom);
    assert_eq!(read_mem(&mut mem, 0x8000), 0xAB);
    assert_eq!(read_mem(&mut mem, 0xC000), 0xAB);
    assert_eq!(read_mem(&mut mem, 0xBFFF), 0xCD);
    assert_eq!(read_mem(&mut mem, 0xFFFF), 0xCD);
}

#[test]
fn double_bank_rom_is_not_mirrored() {
    let mut rom = vec![0u8; 0x8000];
    rom[0x0000] = 0x11;
    rom[0x4000] = 0x22;
    let mut mem = bus_with_rom(rom);
    assert_eq!(read_mem(&mut mem, 0x8000), 0x11);
    assert_eq!(read_mem(&mut mem, 0xC000), 0x22);
}

#[test]
fn bus_forwards_mmio_to_graphics_unit() {
    let mut mem = bus_16k();
    // Set the video-memory address through the bus, store a byte, read it
    // back through the data port after resetting the address.
    write_mem(&mut mem, 0x2006, 0x21);
    write_mem(&mut mem, 0x2006, 0x08);
    write_mem(&mut mem, 0x2007, 0x5A);
    write_mem(&mut mem, 0x2006, 0x21);
    write_mem(&mut mem, 0x2006, 0x08);
    assert_eq!(read_mem(&mut mem, 0x2007), 0x5A);
}

#[test]
fn word_access_is_little_endian() {
    let mut mem = bus_16k();
    write_mem_word(&mut mem, 0x0100, 0x1234);
    assert_eq!(read_mem(&mut mem, 0x0100), 0x34);
    assert_eq!(read_mem(&mut mem, 0x0101), 0x12);
    assert_eq!(read_mem_word(&mut mem, 0x0100), 0x1234);
}

#[test]
fn raw_word_helpers_are_little_endian() {
    let mut buf = vec![0u8; 4];
    write_word(&mut buf, 1, 0xBEEF);
    assert_eq!(buf, vec![0x00, 0xEF, 0xBE, 0x00]);
    assert_eq!(read_word(&buf, 1), 0xBEEF);
}
