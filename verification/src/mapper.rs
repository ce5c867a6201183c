//! Cartridge boards and the addresses they map.

use vstd::prelude::*;

verus! {

/// How the four logical nametables are folded onto the two physical ones.
#[derive(Debug, Clone, Copy, PartialEq, Eq, Structural)]
pub enum Mirroring {
    Horizontal,
    Vertical,
}

/// What a cartridge board decides: where an address leads.
pub trait Mapping {
    /// The nametable mirroring that the board is wired for.
    fn get_nametable_mirroring_type(&self) -> Mirroring;

    /// Offset into program ROM for a processor address from `0x8000` up.
    fn mapping_address(&self, address: usize) -> usize
        requires
            0x8000 <= address <= 0xFFFF,
    ;
}

/// The NROM board: one or two 16 KiB program banks, no bank switching.
#[derive(Debug, Clone, Copy)]
pub struct NRomMapper {
    pub prg_units: usize,
    pub nametable_mirroring_type: Mirroring,
}

/// Offset into program ROM that an NROM board with `prg_units` banks gives
/// for a processor address in `0x8000..=0xFFFF`.
pub open spec fn nrom_offset(prg_units: int, address: int) -> int {
    if prg_units == 1 {
        (address - 0x8000) % 0x4000
    } else {
        address - 0x8000
    }
}

impl NRomMapper {
    /// A board has one or two program banks.
    pub open spec fn wf(&self) -> bool {
        self.prg_units == 1 || self.prg_units == 2
    }

    /// A board with `prg_units` program banks.
    pub fn new(prg_units: usize, nametable_mirroring_type: Mirroring) -> (m: Self)
        ensures
            m.prg_units == prg_units,
            m.nametable_mirroring_type == nametable_mirroring_type,
    {
        Self { prg_units, nametable_mirroring_type }
    }
}

impl Mapping for NRomMapper {
    fn get_nametable_mirroring_type(&self) -> (m: Mirroring)
        ensures
            m == self.nametable_mirroring_type,
    {
        self.nametable_mirroring_type
    }

    fn mapping_address(&self, address: usize) -> (offset: usize)
        ensures
            offset == nrom_offset(self.prg_units as int, address as int),
    {
        let mut address: usize = address;
        if self.prg_units == 1 && address >= 0xC000 {
            address -= 0x4000;
        }
        address -= 0x8000;
        address
    }
}

/// The board of a cartridge.
#[derive(Debug, Clone, Copy)]
pub enum Mapper {
    NRom(NRomMapper),
}

impl Mapper {
    /// Whether the board is well formed.
    pub open spec fn wf(&self) -> bool {
        match self {
            Mapper::NRom(m) => m.wf(),
        }
    }

    /// The nametable mirroring that the board is wired for.
    pub open spec fn mirroring(&self) -> Mirroring {
        match self {
            Mapper::NRom(m) => m.nametable_mirroring_type,
        }
    }

    /// Bytes of program ROM that the board carries.
    pub open spec fn prg_len(&self) -> int {
        match self {
            Mapper::NRom(m) => m.prg_units * 0x4000,
        }
    }

    /// Offset into program ROM for a processor address in `0x8000..=0xFFFF`.
    pub open spec fn prg_offset(&self, address: int) -> int {
        match self {
            Mapper::NRom(m) => nrom_offset(m.prg_units as int, address),
        }
    }

    /// Tests whether the board is well formed.
    pub fn is_well_formed(&self) -> (ok: bool)
        ensures
            ok == self.wf(),
    {
        match self {
            Mapper::NRom(m) => m.prg_units == 1 || m.prg_units == 2,
        }
    }

    /// The nametable mirroring that the board is wired for.
    pub fn get_nametable_mirroring_type(&self) -> (m: Mirroring)
        ensures
            m == self.mirroring(),
    {
        match self {
            Mapper::NRom(m) => m.get_nametable_mirroring_type(),
        }
    }

    /// Offset into program ROM for a processor address from `0x8000` up.
    pub fn mapping_address(&self, address: usize) -> (offset: usize)
        requires
            0x8000 <= address <= 0xFFFF,
        ensures
            offset == self.prg_offset(address as int),
    {
        match self {
            Mapper::NRom(m) => m.mapping_address(address),
        }
    }
}

/// On a well-formed board every processor address from `0x8000` up resolves
/// inside program ROM; with one bank the upper half repeats the lower, with
/// two the banks follow each other.
pub proof fn lemma_prg_offset(mapper: Mapper, address: int)
    requires
        mapper.wf(),
        0x8000 <= address <= 0xFFFF,
    ensures
        0 <= mapper.prg_offset(address) < mapper.prg_len(),
        mapper.prg_len() == 0x4000 ==> mapper.prg_offset(address) == address % 0x4000,
        mapper.prg_len() == 0x8000 ==> mapper.prg_offset(address) == address - 0x8000,
{
}

} // verus!
