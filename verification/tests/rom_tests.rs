use nes_core::rom::load_nes_data;
use nes_core::rom::load_nes_header;
use nes_core::rom::RomError;

fn image(prg_units: u8, chr_units: u8) -> Vec<u8> {
    let mut buf = vec![0x4E, 0x45, 0x53, 0x1A, prg_units, chr_units, 1, 2, 3, 4, 5, 0, 0, 0, 0, 0];
    let prg_len = prg_units as usize * 0x4000;
    let chr_len = chr_units as usize * 0x2000;
    for i in 0..prg_len {
        buf.push((i % 251) as u8);
    }
    for _ in 0..chr_len {
        buf.push(0xEE);
    }
    buf
}

#[test]
fn header_fields_are_decoded() {
    let buf = image(1, 1);
    let h = load_nes_header(&buf).expect("header should parse");
    assert_eq!(h.size_of_prg_rom, 0x4000);
    assert_eq!(h.size_of_chr_rom, 0x2000);
    assert_eq!(h.flag6, 1);
    assert_eq!(h.flag7, 2);
    assert_eq!(h.flag8, 3);
    assert_eq!(h.flag9, 4);
    assert_eq!(h.flag10, 5);
}

#[test]
fn whole_image_parses_into_both_roms() {
    let buf = image(1, 1);
    let rom = load_nes_data(&buf).expect("image should parse");
    assert_eq!(rom.header.size_of_prg_rom, 0x4000);
    assert_eq!(rom.program_rom.data.len(), 0x4000);
    assert_eq!(rom.program_rom.data[0], buf[16]);
    assert_eq!(rom.program_rom.data[0x3FFF], buf[16 + 0x3FFF]);
    assert_eq!(rom.character_rom.data.len(), 0x2000);
    assert!(rom.character_rom.data.iter().all(|b| *b == 0xEE));
}

#[test]
fn bad_magic_is_rejected() {
    let mut buf = image(1, 1);
    buf[3] = 0x00;
    assert_eq!(load_nes_header(&buf), Err(RomError::InvalidHeader));
    match load_nes_data(&buf) {
        Err(RomError::InvalidHeader) => {},
        _ => panic!("a bad magic sequence must be rejected"),
    }
}

#[test]
fn short_header_is_rejected() {
    let buf = vec![0x4E, 0x45, 0x53, 0x1A, 1, 1];
    assert_eq!(load_nes_header(&buf), Err(RomError::Truncated));
}

#[test]
fn empty_image_is_rejected() {
    let buf: Vec<u8> = Vec::new();
    assert_eq!(load_nes_header(&buf), Err(RomError::Truncated));
}

#[test]
fn image_shorter_than_declared_rom_is_rejected() {
    let mut buf = image(1, 1);
    buf.truncate(16 + 0x4000 - 1);
    match load_nes_data(&buf) {
        Err(RomError::Truncated) => {},
        _ => panic!("a truncated program ROM must be rejected"),
    }
    let mut buf2 = image(1, 1);
    buf2.truncate(16 + 0x4000 + 10);
    match load_nes_data(&buf2) {
        Err(RomError::Truncated) => {},
        _ => panic!("a truncated character ROM must be rejected"),
    }
}

#[test]
fn zero_sized_roms_parse() {
    let buf = image(0, 0);
    let rom = load_nes_data(&buf).expect("image should parse");
    assert_eq!(rom.program_rom.data.len(), 0);
    assert_eq!(rom.character_rom.data.len(), 0);
}
