use vstd::prelude::*;

use crate::Mirroring;

verus! {

/// Length of an iNES header.
pub const HEADER_LEN: usize = 16;

/// What the core needs from an iNES header.
#[derive(Clone, Copy, Debug, PartialEq, Eq, Structural)]
pub struct NESHeaderMetadata {
    pub hardwired_mirroring: Mirroring,
    pub mapper_id: u8,
    /// PRG ROM size in bytes (16 KiB units in the header).
    pub prg_rom_size: u32,
    /// CHR ROM size in bytes (8 KiB units in the header); 0 means CHR RAM.
    pub chr_rom_size: u32,
    /// A 512-byte trainer precedes the PRG ROM.
    pub has_trainer: bool,
}

/// True when the first four bytes are "NES" followed by $1A.
pub open spec fn has_magic(h: Seq<u8>) -> bool {
    h.len() >= 4 && h[0] == 0x4E && h[1] == 0x45 && h[2] == 0x53 && h[3] == 0x1A
}

/// The metadata a well-formed header describes. Flags 6: bit 0 vertical
/// mirroring, bit 2 trainer, bit 3 four-screen (which wins), high nibble the
/// mapper's low nibble; flags 7: high nibble the mapper's high nibble.
pub open spec fn header_spec(h: Seq<u8>) -> NESHeaderMetadata {
    let flags6 = h[6];
    let flags7 = h[7];
    NESHeaderMetadata {
        hardwired_mirroring: if flags6 & 0x08 != 0 {
            Mirroring::FourScreen
        } else if flags6 & 0x01 != 0 {
            Mirroring::Vertical
        } else {
            Mirroring::Horizontal
        },
        mapper_id: (flags6 >> 4) | (flags7 & 0xF0),
        prg_rom_size: (h[4] as int * 16384) as u32,
        chr_rom_size: (h[5] as int * 8192) as u32,
        has_trainer: flags6 & 0x04 != 0,
    }
}

impl NESHeaderMetadata {
    /// Reads an iNES header. Fails when it is shorter than 16 bytes or does
    /// not start with the "NES\x1A" magic.
    pub fn parse_header(header: &Vec<u8>) -> (r: Result<Self, &'static str>)
        ensures
            r is Ok <==> (header@.len() >= HEADER_LEN && has_magic(header@)),
            r matches Ok(m) ==> m == header_spec(header@),
    {
        if header.len() < HEADER_LEN {
            return Err("Header shorter than 16 bytes");
        }
        if header[0] != 0x4E || header[1] != 0x45 || header[2] != 0x53 || header[3] != 0x1A {
            return Err("Header missing NES<EOF> magic");
        }
        let flags6: u8 = header[6];
        let flags7: u8 = header[7];
        let hardwired_mirroring = if flags6 & 0x08 != 0 {
            Mirroring::FourScreen
        } else if flags6 & 0x01 != 0 {
            Mirroring::Vertical
        } else {
            Mirroring::Horizontal
        };
        Ok(NESHeaderMetadata {
            hardwired_mirroring,
            mapper_id: (flags6 >> 4) | (flags7 & 0xF0),
            prg_rom_size: header[4] as u32 * 16384,
            chr_rom_size: header[5] as u32 * 8192,
            has_trainer: flags6 & 0x04 != 0,
        })
    }
}

} // verus!
