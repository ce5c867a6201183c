//! Cartridge images and how they are read.

use crate::mapper::{Mapper, Mirroring, NRomMapper};
use vstd::prelude::*;

verus! {

/// A cartridge: program ROM, pattern ROM and the board that maps them.
#[derive(Debug, Clone)]
pub struct ROM {
    pub prg: Vec<u8>,
    pub chr: Vec<u8>,
    pub mapper: Mapper,
}

/// Why a cartridge image is refused.
#[derive(Debug, Clone, Copy, PartialEq, Eq, Structural)]
pub enum RomError {
    /// The image is shorter than its header, or than the sizes the header
    /// declares.
    Malformed,
    /// The image is for a board other than NROM, or declares a number of
    /// program banks that an NROM board cannot carry.
    UnsupportedMapper,
}

/// Length of the header of an image.
pub const HEADER_LEN: usize = 16;

/// Bytes in one unit of program ROM.
pub const PRG_UNIT: usize = 0x4000;

/// Bytes in one unit of pattern ROM.
pub const CHR_UNIT: usize = 0x2000;

/// The mapper number of a header: its low nibble is the high nibble of byte
/// 6, its high nibble that of byte 7.
pub open spec fn mapper_number(bytes: Seq<u8>) -> u8 {
    (bytes[6] >> 4) | (bytes[7] & 0xF0)
}

/// The mirroring that a header declares: vertical if bit 0 of byte 6 is set.
pub open spec fn header_mirroring(bytes: Seq<u8>) -> Mirroring {
    if bytes[6] & 1 != 0 {
        Mirroring::Vertical
    } else {
        Mirroring::Horizontal
    }
}

/// Where program ROM ends and pattern ROM starts in an image.
pub open spec fn chr_start(bytes: Seq<u8>) -> int {
    HEADER_LEN + PRG_UNIT * bytes[4]
}

/// Where pattern ROM ends in an image.
pub open spec fn chr_end(bytes: Seq<u8>) -> int {
    chr_start(bytes) + CHR_UNIT * bytes[5]
}

/// The reason, if any, for which an image is refused: too short for a
/// header; then a mapper other than 0, or other than one or two program
/// banks; then too short for the sizes declared.
pub open spec fn image_error(bytes: Seq<u8>) -> Option<RomError> {
    if bytes.len() < HEADER_LEN {
        Some(RomError::Malformed)
    } else if mapper_number(bytes) != 0 || !(bytes[4] == 1 || bytes[4] == 2) {
        Some(RomError::UnsupportedMapper)
    } else if bytes.len() < chr_end(bytes) {
        Some(RomError::Malformed)
    } else {
        None
    }
}

impl ROM {
    /// The board is well formed and program ROM has the size it maps.
    pub open spec fn wf(&self) -> bool {
        &&& self.mapper.wf()
        &&& self.prg@.len() == self.mapper.prg_len()
    }

    /// The reason, if any, for which the cartridge cannot run.
    pub open spec fn defect(&self) -> Option<RomError> {
        if !self.mapper.wf() {
            Some(RomError::UnsupportedMapper)
        } else if self.prg@.len() != self.mapper.prg_len() {
            Some(RomError::Malformed)
        } else {
            None
        }
    }

    /// Checks that the cartridge can run.
    pub fn check(&self) -> (result: Result<(), RomError>)
        ensures
            result == match self.defect() {
                Some(e) => Err::<(), RomError>(e),
                None => Ok(()),
            },
            result is Ok <==> self.wf(),
    {
        match self.mapper {
            Mapper::NRom(m) => {
                if m.prg_units != 1 && m.prg_units != 2 {
                    Err(RomError::UnsupportedMapper)
                } else if self.prg.len() != m.prg_units * PRG_UNIT {
                    Err(RomError::Malformed)
                } else {
                    Ok(())
                }
            },
        }
    }
}

/// Copies the bytes from `start` up to `end` out of `bytes`.
fn copy_range(bytes: &Vec<u8>, start: usize, end: usize) -> (part: Vec<u8>)
    requires
        start <= end <= bytes@.len(),
    ensures
        part@ == bytes@.subrange(start as int, end as int),
{
    let mut part: Vec<u8> = Vec::with_capacity(end - start);
    let mut i: usize = start;
    while i < end
        invariant
            start <= i <= end <= bytes@.len(),
            part@ == bytes@.subrange(start as int, i as int),
        decreases end - i,
    {
        part.push(bytes[i]);
        i += 1;
        assert(part@ =~= bytes@.subrange(start as int, i as int));
    }
    part
}

/// Reads a cartridge image: a 16-byte header, then program ROM in units of
/// 16 KiB, then pattern ROM in units of 8 KiB.
pub fn parse(rom_buffer: Vec<u8>) -> (result: Result<ROM, RomError>)
    ensures
        match image_error(rom_buffer@) {
            Some(e) => result == Err::<ROM, RomError>(e),
            None => result is Ok && result->Ok_0.wf() && result->Ok_0.prg@
                == rom_buffer@.subrange(HEADER_LEN as int, chr_start(rom_buffer@))
                && result->Ok_0.chr@ == rom_buffer@.subrange(
                chr_start(rom_buffer@),
                chr_end(rom_buffer@),
            ) && result->Ok_0.mapper == Mapper::NRom(
                NRomMapper {
                    prg_units: rom_buffer@[4] as usize,
                    nametable_mirroring_type: header_mirroring(rom_buffer@),
                },
            ),
        },
{
    if rom_buffer.len() < HEADER_LEN {
        return Err(RomError::Malformed);
    }
    let prg_unit_count: usize = rom_buffer[4] as usize;
    let chr_unit_count: usize = rom_buffer[5] as usize;
    let mapper_type: u8 = rom_buffer[6];
    let mapper_number: u8 = (mapper_type >> 4) | (rom_buffer[7] & 0xF0);
    if mapper_number != 0 || !(prg_unit_count == 1 || prg_unit_count == 2) {
        return Err(RomError::UnsupportedMapper);
    }
    let prg_start: usize = HEADER_LEN;
    let chr_start: usize = prg_start + PRG_UNIT * prg_unit_count;
    let chr_end: usize = chr_start + CHR_UNIT * chr_unit_count;
    if rom_buffer.len() < chr_end {
        return Err(RomError::Malformed);
    }
    let is_vertical: bool = mapper_type & 0b1 > 0;
    let mirroring = if is_vertical {
        Mirroring::Vertical
    } else {
        Mirroring::Horizontal
    };
    let mapper = Mapper::NRom(NRomMapper::new(prg_unit_count, mirroring));
    Ok(
        ROM {
            prg: copy_range(&rom_buffer, prg_start, chr_start),
            chr: copy_range(&rom_buffer, chr_start, chr_end),
            mapper,
        },
    )
}

} // verus!
