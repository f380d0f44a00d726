//! Cartridge image parsing: validates the 16-byte header and extracts the
//! program-ROM and character-ROM buffers that the bus and the graphics unit
//! consume.
use vstd::prelude::*;

verus! {

/// The parsed cartridge header.
#[derive(Clone, Copy, Debug, PartialEq, Eq, Structural)]
pub struct NesHeader {
    /// Program-ROM size in bytes (the header stores 16KB units).
    pub size_of_prg_rom: u32,
    /// Character-ROM size in bytes (the header stores 8KB units).
    pub size_of_chr_rom: u32,
    /// Mapper/mirroring flag byte, stored but not interpreted.
    pub flag6: u8,
    /// Mapper/mirroring flag byte, stored but not interpreted.
    pub flag7: u8,
    /// Mapper/mirroring flag byte, stored but not interpreted.
    pub flag8: u8,
    /// Mapper/mirroring flag byte, stored but not interpreted.
    pub flag9: u8,
    /// Mapper/mirroring flag byte, stored but not interpreted.
    pub flag10: u8,
}

/// The character-ROM bytes of a cartridge.
pub struct CharacterRom {
    /// Raw tile pattern data.
    pub data: Vec<u8>,
}

/// The program-ROM bytes of a cartridge.
pub struct ProgramRom {
    /// Raw machine code and data.
    pub data: Vec<u8>,
}

/// A fully parsed cartridge image.
pub struct NesRom {
    /// The parsed header.
    pub header: NesHeader,
    /// Program ROM, following the header in the image.
    pub program_rom: ProgramRom,
    /// Character ROM, following the program ROM in the image.
    pub character_rom: CharacterRom,
}

/// A cartridge image the parser rejects; no partial state is constructed.
#[derive(Clone, Copy, Debug, PartialEq, Eq, Structural)]
pub enum RomError {
    /// The image does not begin with the 4-byte magic sequence.
    InvalidHeader,
    /// The image is shorter than its header or its declared ROM sizes.
    Truncated,
}

/// Size of the cartridge header in bytes.
pub const NES_HEADER_SIZE: usize = 0x10;

/// The image begins with the magic sequence `4E 45 53 1A`.
pub open spec fn header_magic_ok(buf: Seq<u8>) -> bool {
    &&& buf.len() >= 4
    &&& buf[0] == 0x4E
    &&& buf[1] == 0x45
    &&& buf[2] == 0x53
    &&& buf[3] == 0x1A
}

/// The header a well-formed image declares: byte 4 counts 16KB units of
/// program ROM, byte 5 counts 8KB units of character ROM, bytes 6-10 are the
/// flag bytes.
pub open spec fn header_spec(buf: Seq<u8>) -> NesHeader
    recommends
        buf.len() >= NES_HEADER_SIZE,
{
    NesHeader {
        size_of_prg_rom: (buf[4] * 0x4000) as u32,
        size_of_chr_rom: (buf[5] * 0x2000) as u32,
        flag6: buf[6],
        flag7: buf[7],
        flag8: buf[8],
        flag9: buf[9],
        flag10: buf[10],
    }
}

/// Parsing the header: the magic sequence must be present and the image must
/// hold all 16 header bytes.
pub open spec fn load_nes_header_spec(buf: Seq<u8>) -> Result<NesHeader, RomError> {
    if buf.len() < 4 {
        Err(RomError::Truncated)
    } else if !header_magic_ok(buf) {
        Err(RomError::InvalidHeader)
    } else if buf.len() < NES_HEADER_SIZE {
        Err(RomError::Truncated)
    } else {
        Ok(header_spec(buf))
    }
}

/// The program-ROM bytes: they follow the header immediately.
pub open spec fn prg_rom_bytes(buf: Seq<u8>, h: NesHeader) -> Seq<u8> {
    buf.subrange(NES_HEADER_SIZE as int, NES_HEADER_SIZE + h.size_of_prg_rom)
}

/// The character-ROM bytes: they follow the program ROM.
pub open spec fn chr_rom_bytes(buf: Seq<u8>, h: NesHeader) -> Seq<u8> {
    buf.subrange(
        NES_HEADER_SIZE + h.size_of_prg_rom,
        NES_HEADER_SIZE + h.size_of_prg_rom + h.size_of_chr_rom,
    )
}

/// The first reason a whole image is rejected, if any: a bad or truncated
/// header, or an image shorter than the ROM sizes the header declares.
pub open spec fn nes_parse_error(buf: Seq<u8>) -> Option<RomError> {
    match load_nes_header_spec(buf) {
        Err(e) => Some(e),
        Ok(h) => {
            if buf.len() < NES_HEADER_SIZE + h.size_of_prg_rom + h.size_of_chr_rom {
                Some(RomError::Truncated)
            } else {
                None
            }
        },
    }
}

/// Copies `count` bytes of the buffer starting at `start`.
fn copy_range(buffer: &[u8], start: usize, count: usize) -> (v: Vec<u8>)
    requires
        start + count <= buffer@.len(),
    ensures
        v@ == buffer@.subrange(start as int, start as int + count),
{
    let n = buffer.len();
    let mut v: Vec<u8> = Vec::new();
    let mut i: usize = 0;
    while i < count
        invariant
            i == v@.len(),
            i <= count,
            n == buffer@.len(),
            start + count <= buffer@.len(),
            forall|j: int| 0 <= j < i ==> v@[j] == buffer@[start + j],
        decreases count - i,
    {
        v.push(buffer[start + i]);
        i = i + 1;
    }
    proof {
        assert(v@ =~= buffer@.subrange(start as int, start as int + count));
    }
    v
}

/// Validates the magic sequence and reads the header fields out of the first
/// 16 bytes of the image.
pub fn load_nes_header(buffer: &[u8]) -> (r: Result<NesHeader, RomError>)
    ensures
        r == load_nes_header_spec(buffer@),
{
    if buffer.len() < 4 {
        return Err(RomError::Truncated);
    }
    if !(buffer[0] == 0x4E && buffer[1] == 0x45 && buffer[2] == 0x53 && buffer[3] == 0x1A) {
        return Err(RomError::InvalidHeader);
    }
    if buffer.len() < NES_HEADER_SIZE {
        return Err(RomError::Truncated);
    }
    Ok(
        NesHeader {
            size_of_prg_rom: (buffer[4] as u32) * 0x4000,
            size_of_chr_rom: (buffer[5] as u32) * 0x2000,
            flag6: buffer[6],
            flag7: buffer[7],
            flag8: buffer[8],
            flag9: buffer[9],
            flag10: buffer[10],
        },
    )
}

/// Extracts the program-ROM bytes the header declares; fails exactly when
/// the image is shorter than header plus program ROM.
pub fn load_program_rom(buffer: &[u8], header: &NesHeader) -> (r: Result<ProgramRom, RomError>)
    ensures
        match r {
            Ok(p) => {
                &&& NES_HEADER_SIZE + header.size_of_prg_rom <= buffer@.len()
                &&& p.data@ == prg_rom_bytes(buffer@, *header)
            },
            Err(e) => {
                &&& e == RomError::Truncated
                &&& NES_HEADER_SIZE + header.size_of_prg_rom > buffer@.len()
            },
        },
{
    let count = header.size_of_prg_rom as usize;
    if buffer.len() < NES_HEADER_SIZE || buffer.len() - NES_HEADER_SIZE < count {
        return Err(RomError::Truncated);
    }
    Ok(ProgramRom { data: copy_range(buffer, NES_HEADER_SIZE, count) })
}

/// Extracts the character-ROM bytes the header declares; fails exactly when
/// the image is shorter than header plus program ROM plus character ROM.
pub fn load_character_rom(buffer: &[u8], header: &NesHeader) -> (r: Result<CharacterRom, RomError>)
    ensures
        match r {
            Ok(c) => {
                &&& NES_HEADER_SIZE + header.size_of_prg_rom + header.size_of_chr_rom
                    <= buffer@.len()
                &&& c.data@ == chr_rom_bytes(buffer@, *header)
            },
            Err(e) => {
                &&& e == RomError::Truncated
                &&& NES_HEADER_SIZE + header.size_of_prg_rom + header.size_of_chr_rom
                    > buffer@.len()
            },
        },
{
    let prg = header.size_of_prg_rom as usize;
    let count = header.size_of_chr_rom as usize;
    if buffer.len() < NES_HEADER_SIZE || buffer.len() - NES_HEADER_SIZE < prg || buffer.len()
        - NES_HEADER_SIZE - prg < count {
        return Err(RomError::Truncated);
    }
    Ok(CharacterRom { data: copy_range(buffer, NES_HEADER_SIZE + prg, count) })
}

/// Parses a whole cartridge image: header, program ROM, character ROM. Fails
/// fast with the first reason the image is rejected; no partial state is
/// constructed.
pub fn load_nes_data(buffer: &[u8]) -> (r: Result<NesRom, RomError>)
    ensures
        match r {
            Ok(rom) => {
                &&& nes_parse_error(buffer@) is None
                &&& load_nes_header_spec(buffer@) == Ok::<NesHeader, RomError>(rom.header)
                &&& rom.program_rom.data@ == prg_rom_bytes(buffer@, rom.header)
                &&& rom.character_rom.data@ == chr_rom_bytes(buffer@, rom.header)
            },
            Err(e) => nes_parse_error(buffer@) == Some(e),
        },
{
    let nes_header = match load_nes_header(buffer) {
        Err(why) => {
            return Err(why);
        },
        Ok(header) => header,
    };
    let program_rom = match load_program_rom(buffer, &nes_header) {
        Err(why) => {
            return Err(why);
        },
        Ok(rom) => rom,
    };
    let character_rom = match load_character_rom(buffer, &nes_header) {
        Err(why) => {
            return Err(why);
        },
        Ok(rom) => rom,
    };
    Ok(NesRom { header: nes_header, program_rom, character_rom })
}

} // verus!
