//! The picture unit: registers, memories, and the dot-by-dot production of
//! a frame.

use crate::mapper::{Mapper, Mirroring};
use crate::color::Color;
pub use crate::oam::OAMDMAStatus;
use crate::oam::{sprites_wf, OAMData, Sprite, OAM, OAMDMA};
use crate::ppu::view::{
    attribute_palette, lemma_attribute_palette_bound, lemma_pattern_value_bound, line_wf,
    pattern_value, vram_index, PPUView, Screen,
};
use crate::registers::{Address, Control, Mask, OAMAddress, Scroll, ScrollNext, Status};
use vstd::prelude::*;

pub mod laws;
pub mod view;

verus! {

/// The picture unit: its memories, its registers, the sprite lines it has
/// prepared, and its position in the frame.
#[derive(Debug)]
pub struct PPU {
    pub mapper: Mapper,
    pub vram: [u8; 0x800],
    pub palette_ram: [u8; 0x20],
    pub chr_rom: Vec<u8>,
    pub control: Control,
    pub mask: Mask,
    pub status: Status,
    pub oam_address: OAMAddress,
    pub oam_data: OAMData,
    pub scroll: Scroll,
    pub address: Address,
    pub oam_dma: OAMDMA,
    pub oam: OAM,
    pub secondary_oam: OAM,
    pub sprite_temporary_buffer: [u8; 256],
    pub next_line_sprite_temporary_buffer: [u8; 256],
    pub sprite_behind_buffer: [bool; 256],
    pub next_line_sprite_behind_buffer: [bool; 256],
    pub zero_sprite_temporary_buffer: [u8; 256],
    pub next_line_zero_sprite_temporary_buffer: [u8; 256],
    pub cycles: usize,
    pub scan_line: usize,
}

impl View for PPU {
    type V = PPUView;

    open spec fn view(&self) -> PPUView {
        PPUView {
            mapper: self.mapper,
            vram: self.vram@,
            palette_ram: self.palette_ram@,
            chr_rom: self.chr_rom@,
            control: self.control,
            mask: self.mask,
            status: self.status,
            oam_address: self.oam_address,
            scroll: self.scroll,
            address: self.address,
            oam_dma: self.oam_dma,
            oam: self.oam@,
            secondary_oam: self.secondary_oam@,
            sprite_buffer: self.sprite_temporary_buffer@,
            next_sprite_buffer: self.next_line_sprite_temporary_buffer@,
            behind_buffer: self.sprite_behind_buffer@,
            next_behind_buffer: self.next_line_sprite_behind_buffer@,
            zero_buffer: self.zero_sprite_temporary_buffer@,
            next_zero_buffer: self.next_line_zero_sprite_temporary_buffer@,
            cycles: self.cycles,
            scan_line: self.scan_line,
        }
    }
}

/// The unit at power-on over the pattern memory `chr_rom` and the board
/// `mapper`: memories zeroed, registers cleared, at dot 0 of scanline 0.
pub open spec fn power_on(chr_rom: Seq<u8>, mapper: Mapper) -> PPUView {
    PPUView {
        mapper,
        vram: Seq::new(0x800, |i: int| 0u8),
        palette_ram: Seq::new(0x20, |i: int| 0u8),
        chr_rom,
        control: Control::from_byte(0),
        mask: Mask::from_byte(0),
        status: Status { sprite_overflow: false, sprite_zero_hit: false, vblank: false },
        oam_address: OAMAddress { addr: 0 },
        scroll: Scroll { x: 0, y: 0, next: ScrollNext::X },
        address: Address { addr: 0, is_stored_first: false },
        oam_dma: OAMDMA { status: OAMDMAStatus::NotRunning, current_addr: 0, remains: 0 },
        oam: Seq::new(64, |i: int| Sprite::filled(0)),
        secondary_oam: Seq::new(8, |i: int| Sprite::filled(0)),
        sprite_buffer: Seq::new(256, |i: int| 0u8),
        next_sprite_buffer: Seq::new(256, |i: int| 0u8),
        behind_buffer: Seq::new(256, |i: int| false),
        next_behind_buffer: Seq::new(256, |i: int| false),
        zero_buffer: Seq::new(256, |i: int| 0u8),
        next_zero_buffer: Seq::new(256, |i: int| 0u8),
        cycles: 0,
        scan_line: 0,
    }
}

impl PPU {
    /// Whether the unit is well formed.
    pub open spec fn wf(&self) -> bool {
        self@.wf()
    }

    /// Tests whether the unit is well formed.
    pub fn is_well_formed(&self) -> (ok: bool)
        ensures
            ok == self.wf(),
    {
        let latch: bool = match self.scroll.next {
            ScrollNext::X => false,
            ScrollNext::Y => true,
        };
        self.control.name_table < 4 && self.oam_dma.is_well_formed() && self.oam.inner.len() == 64
            && self.oam.is_well_formed() && self.secondary_oam.inner.len() == 8
            && self.secondary_oam.is_well_formed() && line_is_well_formed(
            &self.sprite_temporary_buffer,
        ) && line_is_well_formed(&self.next_line_sprite_temporary_buffer) && self.cycles <= 340
            && self.scan_line <= 261 && latch == self.address.is_stored_first
    }

    /// The unit at power-on over the pattern memory `chr_rom` and the board
    /// `mapper`.
    pub fn new(chr_rom: Vec<u8>, mapper: Mapper) -> (ppu: Self)
        ensures
            ppu@ == power_on(chr_rom@, mapper),
            ppu.wf(),
    {
        let mut control = Control {
            name_table: 0,
            increment_address: false,
            sprites_pattern_table: false,
            background_pattern_table: false,
            sprites_size: false,
            master_slave: false,
            nmi_vblank: false,
        };
        control.set_as_u8(0);
        let mut mask = Mask {
            greyscale: false,
            background_left_column: false,
            sprite_left_column: false,
            background: false,
            sprite: false,
            emphasis_red: false,
            emphasis_green: false,
            emphasis_blue: false,
        };
        mask.set_as_u8(0);
        let ppu = PPU {
            mapper,
            vram: [0; 0x800],
            palette_ram: [0; 0x20],
            chr_rom,
            control,
            mask,
            status: Status { sprite_overflow: false, sprite_zero_hit: false, vblank: false },
            oam_address: OAMAddress { addr: 0 },
            oam_data: OAMData {  },
            scroll: Scroll { x: 0, y: 0, next: ScrollNext::X },
            address: Address { addr: 0, is_stored_first: false },
            oam_dma: OAMDMA { status: OAMDMAStatus::NotRunning, current_addr: 0, remains: 0 },
            oam: OAM::new(64),
            secondary_oam: OAM::new(8),
            sprite_temporary_buffer: [0; 256],
            next_line_sprite_temporary_buffer: [0; 256],
            sprite_behind_buffer: [false; 256],
            next_line_sprite_behind_buffer: [false; 256],
            zero_sprite_temporary_buffer: [0; 256],
            next_line_zero_sprite_temporary_buffer: [0; 256],
            cycles: 0,
            scan_line: 0,
        };
        assert(ppu@.vram =~= Seq::new(0x800, |i: int| 0u8));
        assert(ppu@.palette_ram =~= Seq::new(0x20, |i: int| 0u8));
        assert(ppu@.sprite_buffer =~= Seq::new(256, |i: int| 0u8));
        assert(ppu@.next_sprite_buffer =~= Seq::new(256, |i: int| 0u8));
        assert(ppu@.behind_buffer =~= Seq::new(256, |i: int| false));
        assert(ppu@.next_behind_buffer =~= Seq::new(256, |i: int| false));
        assert(ppu@.zero_buffer =~= Seq::new(256, |i: int| 0u8));
        assert(ppu@.next_zero_buffer =~= Seq::new(256, |i: int| 0u8));
        proof {
            reveal(line_wf);
        }
        ppu
    }

    /// Replaces pattern memory and board.
    pub fn set_rom(&mut self, rom: Vec<u8>, mapper: Mapper)
        ensures
            final(self)@ == (PPUView { chr_rom: rom@, mapper, ..old(self)@ }),
    {
        self.chr_rom = rom;
        self.mapper = mapper;
    }

    /// Folds a nametable address onto the first 2 KiB of the nametable space,
    /// as the board mirrors it.
    pub fn get_mirrored_name_space_address(&self, address: usize) -> (mirrored: usize)
        requires
            0x2000 <= address <= 0x2FFF,
        ensures
            mirrored == 0x2000 + vram_index(self.mapper.mirroring(), address as int),
            0x2000 <= mirrored < 0x2800,
    {
        let offset: usize = address - 0x2000;
        let table: usize = offset / 0x400;
        let physical: usize = match self.mapper.get_nametable_mirroring_type() {
            Mirroring::Horizontal => table / 2,
            Mirroring::Vertical => table % 2,
        };
        0x2000 + physical * 0x400 + offset % 0x400
    }

    /// Stores `byte` at a nametable address.
    pub fn write_byte_to_nametable(&mut self, address: usize, byte: u8)
        requires
            0x2000 <= address <= 0x2FFF,
        ensures
            final(self)@ == (PPUView {
                vram: old(self)@.vram.update(
                    vram_index(old(self)@.mapper.mirroring(), address as int),
                    byte,
                ),
                ..old(self)@
            }),
    {
        let addr: usize = self.get_mirrored_name_space_address(address);
        self.vram[addr - 0x2000] = byte;
    }

    /// The byte at a nametable address.
    pub fn read_byte_from_nametable(&self, address: usize) -> (byte: u8)
        requires
            0x2000 <= address <= 0x2FFF,
        ensures
            byte == self@.nametable_byte(address as int),
    {
        let addr: usize = self.get_mirrored_name_space_address(address);
        self.vram[addr - 0x2000]
    }

    /// Reads the byte at `address` of the unit's own address space.
    pub fn read_memory(&self, address: usize) -> (byte: u8)
        requires
            self.wf(),
            address < 0x4000,
        ensures
            byte == self@.mem_byte(address as int),
    {
        if address < 0x2000 {
            if address < self.chr_rom.len() {
                self.chr_rom[address]
            } else {
                0
            }
        } else if address < 0x3F00 {
            self.read_byte_from_nametable(0x2000 + address % 0x1000)
        } else {
            let i: usize = address % 0x20;
            if i >= 0x10 && i % 4 == 0 {
                self.palette_ram[i - 0x10]
            } else {
                self.palette_ram[i]
            }
        }
    }

    /// Stores `byte` at `address` of the unit's own address space.
    pub fn write_memory(&mut self, address: usize, byte: u8)
        requires
            old(self).wf(),
            address < 0x4000,
        ensures
            final(self)@ == old(self)@.mem_written(address as int, byte),
            final(self).wf(),
    {
        if address < 0x2000 {
        } else if address < 0x3F00 {
            self.write_byte_to_nametable(0x2000 + address % 0x1000, byte);
            assert(self@.vram.len() == 0x800);
        } else {
            let i: usize = address % 0x20;
            let j: usize = if i >= 0x10 && i % 4 == 0 {
                i - 0x10
            } else {
                i
            };
            self.palette_ram[j] = byte;
            assert(self@.palette_ram =~= old(self)@.palette_ram.update(j as int, byte));
            assert(self@ == (PPUView { palette_ram: self@.palette_ram, ..old(self)@ }));
        }
    }

    /// Reads the status register, which clears the vblank flag and the write
    /// latch.
    fn read_status(&mut self) -> (byte: u8)
        requires
            old(self).wf(),
        ensures
            byte == old(self)@.read_value(0x2002),
            final(self)@ == old(self)@.after_read(0x2002),
            final(self).wf(),
    {
        let byte: u8 = self.status.get_as_u8();
        self.status.clear_vblank();
        self.scroll.reset_latch();
        self.address.reset_latch();
        byte
    }

    /// Reads through the data port, which moves the pointer on.
    fn read_data(&mut self) -> (byte: u8)
        requires
            old(self).wf(),
        ensures
            byte == old(self)@.read_value(0x2007),
            final(self)@ == old(self)@.after_read(0x2007),
            final(self).wf(),
    {
        let addr: usize = (self.address.get() as usize) % 0x4000;
        let byte: u8 = self.read_memory(addr);
        self.address.increment_address(self.control.increment_address);
        byte
    }

    /// Reads what a read does not change.
    fn peek(&mut self, address: usize) -> (byte: u8)
        requires
            old(self).wf(),
            address != 0x2002,
            address != 0x2007,
        ensures
            byte == old(self)@.read_value(address as int),
            final(self)@ == old(self)@,
    {
        if address < 0x2000 {
            if address < self.chr_rom.len() {
                self.chr_rom[address]
            } else {
                0
            }
        } else if address == 0x2004 {
            self.oam_data.read_byte(self.oam_address.addr as usize, &mut self.oam)
        } else {
            0
        }
    }

    /// Reads register `address` as the processor does, with what the read sets
    /// off.
    pub fn read_byte(&mut self, address: usize) -> (byte: u8)
        requires
            old(self).wf(),
        ensures
            byte == old(self)@.read_value(address as int),
            final(self)@ == old(self)@.after_read(address as int),
            final(self).wf(),
    {
        if address == 0x2002 {
            self.read_status()
        } else if address == 0x2007 {
            self.read_data()
        } else {
            self.peek(address)
        }
    }

    /// Returns what a read of register `address` would return, and changes
    /// nothing.
    pub fn read_byte_without_effect(&mut self, address: usize) -> (byte: u8)
        requires
            old(self).wf(),
        ensures
            byte == old(self)@.read_value(address as int),
            final(self)@ == old(self)@,
    {
        if address == 0x2002 {
            self.status.get_as_u8()
        } else if address == 0x2007 {
            let addr: usize = (self.address.get() as usize) % 0x4000;
            self.read_memory(addr)
        } else {
            self.peek(address)
        }
    }

    /// Writes the control register.
    fn write_control(&mut self, byte: u8)
        requires
            old(self).wf(),
        ensures
            final(self)@ == old(self)@.after_write(0x2000, byte),
            final(self).wf(),
    {
        self.control.set_as_u8(byte);
    }

    /// Writes the mask register.
    fn write_mask(&mut self, byte: u8)
        requires
            old(self).wf(),
        ensures
            final(self)@ == old(self)@.after_write(0x2001, byte),
            final(self).wf(),
    {
        self.mask.set_as_u8(byte);
    }

    /// Writes the sprite-memory pointer.
    fn write_oam_address(&mut self, byte: u8)
        requires
            old(self).wf(),
        ensures
            final(self)@ == old(self)@.after_write(0x2003, byte),
            final(self).wf(),
    {
        self.oam_address.write_byte(byte);
    }

    /// Requests a sprite-memory transfer.
    fn write_dma(&mut self, byte: u8)
        requires
            old(self).wf(),
        ensures
            final(self)@ == old(self)@.after_write(0x4014, byte),
            final(self).wf(),
    {
        self.oam_dma.write_byte(byte);
    }

    /// Writes through the sprite-memory port, which moves its pointer on.
    fn write_oam_data(&mut self, byte: u8)
        requires
            old(self).wf(),
        ensures
            final(self)@ == old(self)@.after_write(0x2004, byte),
            final(self).wf(),
    {
        self.oam_data.write_byte(self.oam_address.addr as usize, byte, &mut self.oam);
        self.oam_address.addr = self.oam_address.addr.wrapping_add(1);
    }

    /// Writes one half of the scroll position.
    fn write_scroll(&mut self, byte: u8)
        requires
            old(self).wf(),
        ensures
            final(self)@ == old(self)@.after_write(0x2005, byte),
            final(self).wf(),
    {
        self.scroll.set_as_u8(byte);
        self.address.is_stored_first = !self.address.is_stored_first;
    }

    /// Writes one half of the pointer.
    fn write_address(&mut self, byte: u8)
        requires
            old(self).wf(),
        ensures
            final(self)@ == old(self)@.after_write(0x2006, byte),
            final(self).wf(),
    {
        self.address.set_as_u8(byte);
        self.scroll.next = if self.address.is_stored_first {
            ScrollNext::Y
        } else {
            ScrollNext::X
        };
    }

    /// Writes through the data port, which moves the pointer on.
    fn write_data(&mut self, byte: u8)
        requires
            old(self).wf(),
        ensures
            final(self)@ == old(self)@.after_write(0x2007, byte),
            final(self).wf(),
    {
        let addr: usize = (self.address.get() as usize) % 0x4000;
        self.write_memory(addr, byte);
        self.address.increment_address(self.control.increment_address);
    }

    /// Writes `byte` to register `address` as the processor does.
    pub fn write_byte(&mut self, address: usize, byte: u8)
        requires
            old(self).wf(),
        ensures
            final(self)@ == old(self)@.after_write(address as int, byte),
            final(self).wf(),
    {
        if address == 0x2000 {
            self.write_control(byte);
        } else if address == 0x2001 {
            self.write_mask(byte);
        } else if address == 0x2003 {
            self.write_oam_address(byte);
        } else if address == 0x2004 {
            self.write_oam_data(byte);
        } else if address == 0x2005 {
            self.write_scroll(byte);
        } else if address == 0x2006 {
            self.write_address(byte);
        } else if address == 0x2007 {
            self.write_data(byte);
        } else if address == 0x4014 {
            self.write_dma(byte);
        }
    }

    /// How far the sprite-memory transfer is.
    pub fn oam_dma_status(&self) -> (status: OAMDMAStatus)
        ensures
            status == self.oam_dma.status,
    {
        self.oam_dma.status
    }

    /// Starts the waiting sprite-memory transfer.
    pub fn start_oam_dma(&mut self)
        requires
            old(self).wf(),
            old(self).oam_dma.status is Waiting,
        ensures
            final(self)@ == old(self)@.after_dma_start(),
            final(self).wf(),
    {
        self.oam_dma.start();
    }

    /// Takes one byte of the running transfer into sprite memory.
    pub fn oam_dma_write(&mut self, byte: u8)
        requires
            old(self).wf(),
            old(self).oam_dma.remains >= 1,
        ensures
            final(self)@ == old(self)@.after_dma_write(byte),
            final(self).wf(),
    {
        self.oam.write_byte(
            (0x100 - self.oam_dma.remains + self.oam_address.addr as usize) % 0x100,
            byte,
        );
        self.oam_dma.tick();
    }

    /// Reads a byte of pattern memory; beyond its end the byte is 0.
    pub fn read_pattern_byte(&self, address: usize) -> (byte: u8)
        ensures
            byte == self@.chr(address as int),
    {
        if address < self.chr_rom.len() {
            self.chr_rom[address]
        } else {
            0
        }
    }

    /// The pattern value at (`x`, `y`) of a tile of the background's pattern
    /// table.
    pub fn get_specified_in_tile(&self, tile_number: u8, x: usize, y: usize) -> (pattern: u8)
        requires
            x < 8,
            y < 8,
        ensures
            pattern == self@.tile_pattern(
                self@.background_table(),
                tile_number,
                x as int,
                y as int,
            ),
            pattern < 4,
    {
        let start_addr: usize = self.control.get_background_pattern_table_base_address()
            + tile_number as usize * 0x10;
        let byte1: u8 = self.read_pattern_byte(start_addr + y);
        let byte2: u8 = self.read_pattern_byte(start_addr + y + 8);
        pattern_bits(byte1, byte2, (7 - x) as u8)
    }

    /// The eight rows of tile `tile_number` of the background's pattern
    /// table, each the pattern values of its eight pixels from left to right.
    pub fn get_tile(&self, tile_number: u8) -> (tile: Vec<Vec<u8>>)
        ensures
            tile@.len() == 8,
            forall|y: int| 0 <= y < 8 ==> (#[trigger] tile@[y])@.len() == 8,
            forall|x: int, y: int|
                0 <= x < 8 && 0 <= y < 8 ==> #[trigger] tile@[y]@[x] == self@.tile_pattern(
                    self@.background_table(),
                    tile_number,
                    x,
                    y,
                ),
    {
        let mut tile: Vec<Vec<u8>> = Vec::with_capacity(8);
        let mut y: usize = 0;
        while y < 8
            invariant
                y <= 8,
                tile@.len() == y,
                forall|r: int| 0 <= r < y ==> (#[trigger] tile@[r])@.len() == 8,
                forall|x: int, r: int|
                    0 <= x < 8 && 0 <= r < y ==> #[trigger] tile@[r]@[x] == self@.tile_pattern(
                        self@.background_table(),
                        tile_number,
                        x,
                        r,
                    ),
            decreases 8 - y,
        {
            let mut one_bar: Vec<u8> = Vec::with_capacity(8);
            let mut x: usize = 0;
            while x < 8
                invariant
                    x <= 8,
                    y < 8,
                    one_bar@.len() == x,
                    forall|c: int|
                        0 <= c < x ==> #[trigger] one_bar@[c] == self@.tile_pattern(
                            self@.background_table(),
                            tile_number,
                            c,
                            y as int,
                        ),
                decreases 8 - x,
            {
                one_bar.push(self.get_specified_in_tile(tile_number, x, y));
                x += 1;
            }
            tile.push(one_bar);
            y += 1;
        }
        tile
    }

    /// The palette of the background at (`x`, `y`) of the nametable at
    /// `nametable_address`.
    pub fn get_palette_number(&self, nametable_address: usize, x: usize, y: usize) -> (palette: u8)
        requires
            self.wf(),
            nametable_address == 0x2000 || nametable_address == 0x2400 || nametable_address
                == 0x2800 || nametable_address == 0x2C00,
            x < 256,
            y < 240,
        ensures
            palette == attribute_palette(
                self@.nametable_byte(nametable_address + 0x3C0 + x / 32 + (y / 32) * 8),
                ((y / 16) % 2) * 2 + (x / 16) % 2,
            ),
            palette < 4,
    {
        let attr_byte: u8 = self.read_byte_from_nametable(
            nametable_address + 0x3C0 + x / 32 + (y / 32) * 8,
        );
        let specific_bits: usize = ((y / 16) % 2) * 2 + (x / 16) % 2;
        proof {
            lemma_attribute_palette_bound(attr_byte, specific_bits as int);
        }
        if specific_bits == 0 {
            attr_byte & 0b0000_0011
        } else if specific_bits == 1 {
            (attr_byte & 0b0000_1100) >> 2
        } else if specific_bits == 2 {
            (attr_byte & 0b0011_0000) >> 4
        } else {
            (attr_byte & 0b1100_0000) >> 6
        }
    }

    /// Column of screen column `x` in the plane of the four nametables.
    pub fn get_plane_x(&self, x: usize) -> (plane_x: usize)
        requires
            x < 256,
        ensures
            plane_x == self@.plane_x(x as int),
            plane_x < 512,
    {
        (x + self.scroll.x as usize + (self.control.name_table % 2) as usize * 256) % 512
    }

    /// Row of screen row `y` in the plane of the four nametables.
    pub fn get_plane_y(&self, y: usize) -> (plane_y: usize)
        requires
            y < 240,
        ensures
            plane_y == self@.plane_y(y as int),
            plane_y < 480,
    {
        (y + self.scroll.y as usize + (self.control.name_table / 2) as usize * 240) % 480
    }

    /// The background's index into palette memory at screen position (`x`,
    /// `y`); 0 where it is transparent.
    pub fn get_background_pixel(&self, x: usize, y: usize) -> (index: u8)
        requires
            self.wf(),
            x < 256,
            y < 240,
        ensures
            index == self@.background_index(x as int, y as int),
            index < 0x10,
            (index == 0) == (self@.background_pattern(x as int, y as int) == 0),
    {
        let plane_x: usize = self.get_plane_x(x);
        let plane_y: usize = self.get_plane_y(y);
        let table: usize = plane_x / 256 + 2 * (plane_y / 240);
        let nametable_address: usize = 0x2000 + 0x400 * table;
        let px: usize = plane_x % 256;
        let py: usize = plane_y % 240;
        assert(px == plane_x || px == plane_x - 256);
        assert(py == plane_y || py == plane_y - 240);
        assert(px % 8 == plane_x % 8);
        assert(py % 8 == plane_y % 8);
        assert(table < 4);
        let tile_number: u8 = self.read_byte_from_nametable(
            nametable_address + px / 8 + (py / 8) * 32,
        );
        assert(tile_number == self@.background_tile(x as int, y as int));
        let c: u8 = self.get_specified_in_tile(tile_number, px % 8, py % 8);
        assert(c == self@.background_pattern(x as int, y as int));
        let pal: u8 = self.get_palette_number(nametable_address, px, py);
        assert(pal == self@.background_palette(x as int, y as int));
        if c == 0 {
            0
        } else {
            pal * 4 + c
        }
    }

    /// The pattern values of the eight pixels of row `y` of the sprite `s`,
    /// from left to right on screen.
    pub fn get_specified_in_sprite_tile(&self, s: &Sprite, y: usize) -> (pixels: [u8; 8])
        requires
            y < self@.control.sprite_height(),
        ensures
            forall|i: int|
                0 <= i < 8 ==> #[trigger] pixels@[i] == self@.sprite_pattern(*s, y as int, i),
            forall|i: int| 0 <= i < 8 ==> #[trigger] pixels@[i] < 4,
    {
        let start_addr: usize;
        let row: usize;
        if self.control.sprites_size {
            let r: usize = if s.attribute.vflip {
                15 - y
            } else {
                y
            };
            let base: usize = (s.tile_number % 2) as usize * 0x1000;
            let tile: usize = (s.tile_number - s.tile_number % 2) as usize + r / 8;
            start_addr = base + tile * 0x10;
            row = r % 8;
        } else {
            row = if s.attribute.vflip {
                7 - y
            } else {
                y
            };
            start_addr = self.control.get_sprites_pattern_table_base_address()
                + s.tile_number as usize * 0x10;
        }
        let byte1: u8 = self.read_pattern_byte(start_addr + row);
        let byte2: u8 = self.read_pattern_byte(start_addr + row + 8);
        let mut pixels: [u8; 8] = [0;8];
        let mut i: usize = 0;
        while i < 8
            invariant
                i <= 8,
                y < self@.control.sprite_height(),
                forall|j: int|
                    0 <= j < i ==> #[trigger] pixels@[j] == self@.sprite_pattern(*s, y as int, j),
                forall|j: int| 0 <= j < i ==> #[trigger] pixels@[j] < 4,
                byte1 == self@.chr(start_addr + row),
                byte2 == self@.chr(start_addr + row + 8),
                self.control.sprites_size ==> row == (if s.attribute.vflip {
                    15 - y
                } else {
                    y as int
                }) % 8 && start_addr == (s.tile_number % 2) * 0x1000 + ((s.tile_number
                    - s.tile_number % 2) + (if s.attribute.vflip {
                    15 - y
                } else {
                    y as int
                }) / 8) * 16,
                !self.control.sprites_size ==> row == (if s.attribute.vflip {
                    7 - y
                } else {
                    y as int
                }) && start_addr == (if self.control.sprites_pattern_table {
                    0x1000int
                } else {
                    0
                }) + s.tile_number * 16,
            decreases 8 - i,
        {
            let x: usize = if s.attribute.hflip {
                i
            } else {
                7 - i
            };
            pixels[i] = pattern_bits(byte1, byte2, x as u8);
            i += 1;
        }
        pixels
    }

    /// Produces the pixel of the current dot, which must be a visible one.
    fn draw_pixel(&mut self, display: &mut Screen)
        requires
            old(self).wf(),
            old(self)@.visible(),
        ensures
            final(self)@ == old(self)@.rendered(),
            old(self)@.paints(*old(display), *final(display)),
            final(self).wf(),
    {
        let x: usize = self.cycles - 1;
        let y: usize = self.scan_line;

        let sprite_c: u8 = self.sprite_temporary_buffer[x];
        let behind: bool = self.sprite_behind_buffer[x];
        let zero_c: u8 = self.zero_sprite_temporary_buffer[x];
        let background_c: u8 = self.get_background_pixel(x, y);

        let index: u8 = if sprite_c != 0 && (!behind || background_c == 0) {
            sprite_c
        } else {
            background_c
        };
        proof {
            reveal(line_wf);
            assert(self@.sprite_buffer[x as int] < 0x20);
        }
        let c: Color = Color::from(self.palette_ram[index as usize]);
        display[y][x][0] = c.0;
        display[y][x][1] = c.1;
        display[y][x][2] = c.2;

        // A hit needs both layers switched on and opaque, and is not taken in
        // the last column nor, while either layer is clipped, in the first eight.
        let hit: bool = !self.status.sprite_zero_hit && x != 255 && self.mask.background
            && self.mask.sprite && zero_c != 0 && (x >= 8 || (self.mask.background_left_column
            && self.mask.sprite_left_column)) && background_c != 0;
        self.status.sprite_zero_hit = self.status.sprite_zero_hit || hit;
    }

    /// Produces the pixel of the current dot, if it is a visible one.
    pub fn render_pixel(&mut self, display: &mut Screen)
        requires
            old(self).wf(),
        ensures
            final(self)@ == old(self)@.rendered(),
            old(self)@.paints(*old(display), *final(display)),
            final(self).wf(),
    {
        if self.cycles >= 257 || self.scan_line >= 240 || self.cycles == 0 {
            return ;
        }
        self.draw_pixel(display);
    }

    /// Draws row `row` of the sprite `s` into the line for the next scanline:
    /// each opaque pixel goes where the line is still empty, and for sprite
    /// zero every pixel is recorded in its own line.
    fn draw_sprite(&mut self, s: &Sprite, row: usize, zero: bool)
        requires
            old(self).wf(),
            row < old(self)@.control.sprite_height(),
            s.attribute.wf(),
        ensures
            final(self)@ == (PPUView {
                next_sprite_buffer: final(self)@.next_sprite_buffer,
                next_behind_buffer: final(self)@.next_behind_buffer,
                next_zero_buffer: final(self)@.next_zero_buffer,
                ..old(self)@
            }),
            final(self).wf(),
            forall|x: int|
                0 <= x < 256 ==> #[trigger] final(self)@.next_sprite_buffer[x] == if old(
                    self,
                )@.next_sprite_buffer[x] == 0 && s.x <= x < s.x + 8 && old(self)@.sprite_pattern(
                    *s,
                    row as int,
                    x - s.x,
                ) != 0 {
                    (0x10 + s.attribute.palette * 4 + old(self)@.sprite_pattern(
                        *s,
                        row as int,
                        x - s.x,
                    )) as u8
                } else {
                    old(self)@.next_sprite_buffer[x]
                },
            forall|x: int|
                0 <= x < 256 ==> #[trigger] final(self)@.next_behind_buffer[x] == if old(
                    self,
                )@.next_sprite_buffer[x] == 0 && s.x <= x < s.x + 8 && old(self)@.sprite_pattern(
                    *s,
                    row as int,
                    x - s.x,
                ) != 0 {
                    s.attribute.priority
                } else {
                    old(self)@.next_behind_buffer[x]
                },
            forall|x: int|
                0 <= x < 256 ==> #[trigger] final(self)@.next_zero_buffer[x] == if zero && s.x <= x
                    < s.x + 8 {
                    old(self)@.sprite_pattern(*s, row as int, x - s.x)
                } else {
                    old(self)@.next_zero_buffer[x]
                },
    {
        let cs: [u8; 8] = self.get_specified_in_sprite_tile(s, row);
        let ghost before = self@;
        let mut k: usize = 0;
        proof {
            reveal(line_wf);
        }
        while k < 8 && s.x as usize + k < 256
            invariant
                k <= 8,
                before.wf(),
                s.attribute.wf(),
                self@ == (PPUView {
                    next_sprite_buffer: self@.next_sprite_buffer,
                    next_behind_buffer: self@.next_behind_buffer,
                    next_zero_buffer: self@.next_zero_buffer,
                    ..before
                }),
                forall|i: int|
                    0 <= i < 8 ==> #[trigger] cs@[i] == before.sprite_pattern(*s, row as int, i),
                forall|i: int| 0 <= i < 8 ==> #[trigger] cs@[i] < 4,
                forall|x: int| 0 <= x < 256 ==> #[trigger] self@.next_sprite_buffer[x] < 0x20,
                forall|x: int|
                    0 <= x < 256 ==> #[trigger] self@.next_sprite_buffer[x]
                        == if before.next_sprite_buffer[x] == 0 && s.x <= x < s.x + k && cs@[x
                        - s.x] != 0 {
                        (0x10 + s.attribute.palette * 4 + cs@[x - s.x]) as u8
                    } else {
                        before.next_sprite_buffer[x]
                    },
                forall|x: int|
                    0 <= x < 256 ==> #[trigger] self@.next_behind_buffer[x]
                        == if before.next_sprite_buffer[x] == 0 && s.x <= x < s.x + k && cs@[x
                        - s.x] != 0 {
                        s.attribute.priority
                    } else {
                        before.next_behind_buffer[x]
                    },
                forall|x: int|
                    0 <= x < 256 ==> #[trigger] self@.next_zero_buffer[x] == if zero && s.x <= x
                        < s.x + k {
                        cs@[x - s.x]
                    } else {
                        before.next_zero_buffer[x]
                    },
            decreases 8 - k,
        {
            let x: usize = s.x as usize + k;
            let c: u8 = cs[k];
            let free: bool = self.next_line_sprite_temporary_buffer[x] == 0;
            let index: u8 = if free && c != 0 {
                0x10 + s.attribute.palette * 4 + c
            } else {
                self.next_line_sprite_temporary_buffer[x]
            };
            let behind: bool = if free && c != 0 {
                s.attribute.priority
            } else {
                self.next_line_sprite_behind_buffer[x]
            };
            let zero_c: u8 = if zero {
                c
            } else {
                self.next_line_zero_sprite_temporary_buffer[x]
            };
            self.next_line_sprite_temporary_buffer[x] = index;
            self.next_line_sprite_behind_buffer[x] = behind;
            self.next_line_zero_sprite_temporary_buffer[x] = zero_c;
            k += 1;
        }
    }

    /// Stores the sprite `s` at `place` of the secondary sprite memory and
    /// draws its row `row` into the line for the next scanline.
    fn keep_sprite(&mut self, place: usize, s: &Sprite, row: usize, zero: bool)
        requires
            old(self).wf(),
            place < 8,
            row < old(self)@.control.sprite_height(),
            s.attribute.wf(),
        ensures
            final(self)@ == (PPUView {
                secondary_oam: old(self)@.secondary_oam.update(place as int, *s),
                next_sprite_buffer: final(self)@.next_sprite_buffer,
                next_behind_buffer: final(self)@.next_behind_buffer,
                next_zero_buffer: final(self)@.next_zero_buffer,
                ..old(self)@
            }),
            final(self).wf(),
            forall|x: int|
                0 <= x < 256 ==> #[trigger] final(self)@.next_sprite_buffer[x] == if old(
                    self,
                )@.next_sprite_buffer[x] == 0 && s.x <= x < s.x + 8 && old(self)@.sprite_pattern(
                    *s,
                    row as int,
                    x - s.x,
                ) != 0 {
                    (0x10 + s.attribute.palette * 4 + old(self)@.sprite_pattern(
                        *s,
                        row as int,
                        x - s.x,
                    )) as u8
                } else {
                    old(self)@.next_sprite_buffer[x]
                },
            forall|x: int|
                0 <= x < 256 ==> #[trigger] final(self)@.next_behind_buffer[x] == if old(
                    self,
                )@.next_sprite_buffer[x] == 0 && s.x <= x < s.x + 8 && old(self)@.sprite_pattern(
                    *s,
                    row as int,
                    x - s.x,
                ) != 0 {
                    s.attribute.priority
                } else {
                    old(self)@.next_behind_buffer[x]
                },
            forall|x: int|
                0 <= x < 256 ==> #[trigger] final(self)@.next_zero_buffer[x] == if zero && s.x <= x
                    < s.x + 8 {
                    old(self)@.sprite_pattern(*s, row as int, x - s.x)
                } else {
                    old(self)@.next_zero_buffer[x]
                },
    {
        self.secondary_oam.set_sprite(place, *s);
        proof {
            reveal(sprites_wf);
        }
        self.draw_sprite(s, row, zero);
    }

    /// Examines sprite `i`, of which `count` predecessors are in range: one
    /// in range is kept while fewer than eight are, and flags an overflow
    /// otherwise. Returns the number in range up to and with sprite `i`.
    fn examine_sprite(&mut self, i: usize, count: usize) -> (next: usize)
        requires
            old(self).wf(),
            old(self).scan_line < 240,
            i < 64,
            count <= i,
        ensures
            next == count + if old(self)@.sprite_in_range(i as int) {
                1int
            } else {
                0
            },
            final(self)@ == (PPUView {
                secondary_oam: if old(self)@.sprite_in_range(i as int) && count < 8 {
                    old(self)@.secondary_oam.update(count as int, old(self)@.oam[i as int])
                } else {
                    old(self)@.secondary_oam
                },
                status: Status {
                    sprite_overflow: old(self)@.status.sprite_overflow || (old(
                        self,
                    )@.sprite_in_range(i as int) && count >= 8),
                    ..old(self)@.status
                },
                next_sprite_buffer: final(self)@.next_sprite_buffer,
                next_behind_buffer: final(self)@.next_behind_buffer,
                next_zero_buffer: final(self)@.next_zero_buffer,
                ..old(self)@
            }),
            final(self).wf(),
            forall|x: int|
                0 <= x < 256 ==> #[trigger] final(self)@.next_sprite_buffer[x] == if old(
                    self,
                )@.next_sprite_buffer[x] == 0 && old(self)@.sprite_in_range(i as int) && count
                    < 8 && old(self)@.span_pixel(old(self)@.oam[i as int], x) != 0 {
                    (0x10 + old(self)@.oam[i as int].attribute.palette * 4 + old(
                        self,
                    )@.span_pixel(old(self)@.oam[i as int], x)) as u8
                } else {
                    old(self)@.next_sprite_buffer[x]
                },
            forall|x: int|
                0 <= x < 256 ==> #[trigger] final(self)@.next_behind_buffer[x] == if old(
                    self,
                )@.next_sprite_buffer[x] == 0 && old(self)@.sprite_in_range(i as int) && count
                    < 8 && old(self)@.span_pixel(old(self)@.oam[i as int], x) != 0 {
                    old(self)@.oam[i as int].attribute.priority
                } else {
                    old(self)@.next_behind_buffer[x]
                },
            forall|x: int|
                0 <= x < 256 ==> #[trigger] final(self)@.next_zero_buffer[x] == if i == 0 && old(
                    self,
                )@.sprite_in_range(i as int) && old(self)@.oam[i as int].x <= x < old(
                    self,
                )@.oam[i as int].x + 8 {
                    old(self)@.span_pixel(old(self)@.oam[i as int], x)
                } else {
                    old(self)@.next_zero_buffer[x]
                },
    {
        let s: Sprite = *self.oam.get(i);
        let scan_line: usize = self.scan_line;
        let height: usize = if self.control.sprites_size {
            16
        } else {
            8
        };
        let in_range: bool = s.y as usize <= scan_line && scan_line < s.y as usize + height;
        proof {
            reveal(sprites_wf);
            assert(self@.oam[i as int].attribute.wf());
        }
        self.status.sprite_overflow = self.status.sprite_overflow || (in_range && count >= 8);
        if in_range && count < 8 {
            self.keep_sprite(count, &s, scan_line - s.y as usize, i == 0);
        }
        if in_range {
            count + 1
        } else {
            count
        }
    }

    /// Selects the sprites of the current scanline and draws them into the
    /// line for the next one.
    fn select_sprites(&mut self)
        requires
            old(self).wf(),
            old(self).scan_line < 240,
        ensures
            final(self)@ == (PPUView {
                secondary_oam: old(self)@.secondary_filled(64),
                status: Status {
                    sprite_overflow: old(self)@.status.sprite_overflow || old(
                        self,
                    )@.in_range_count(64) > 8,
                    ..old(self)@.status
                },
                next_sprite_buffer: Seq::new(256, |x: int| old(self)@.line_index(64, x)),
                next_behind_buffer: Seq::new(256, |x: int| old(self)@.line_behind(64, x)),
                next_zero_buffer: Seq::new(256, |x: int| old(self)@.sprite_pixel(0, x)),
                ..old(self)@
            }),
            final(self).wf(),
    {
        let ghost before = self@;
        self.clear_next_line();
        let mut count: usize = 0;
        let mut i: usize = 0;
        while i < 64
            invariant
                i <= 64,
                before.wf(),
                before.scan_line < 240,
                self.wf(),
                count == before.in_range_count(i as int),
                count <= i,
                self@ == (PPUView {
                    secondary_oam: before.secondary_filled(i as int),
                    status: Status {
                        sprite_overflow: before.status.sprite_overflow || count > 8,
                        ..before.status
                    },
                    next_sprite_buffer: self@.next_sprite_buffer,
                    next_behind_buffer: self@.next_behind_buffer,
                    next_zero_buffer: self@.next_zero_buffer,
                    ..before
                }),
                forall|x: int|
                    0 <= x < 256 ==> #[trigger] self@.next_sprite_buffer[x] == before.line_index(
                        i as int,
                        x,
                    ),
                forall|x: int|
                    0 <= x < 256 ==> #[trigger] self@.next_behind_buffer[x] == before.line_behind(
                        i as int,
                        x,
                    ),
                forall|x: int|
                    0 <= x < 256 ==> #[trigger] self@.next_zero_buffer[x] == if i == 0 {
                        0u8
                    } else {
                        before.sprite_pixel(0, x)
                    },
            decreases 64 - i,
        {
            let ghost mid = self@;
            count = self.examine_sprite(i, count);
            proof {
                let s = before.oam[i as int];
                assert(mid.oam[i as int] == s);
                assert(mid.sprite_in_range(i as int) == before.sprite_in_range(i as int));
                assert(before.sprite_selected(i as int) == (before.sprite_in_range(i as int)
                    && before.in_range_count(i as int) < 8));
                assert forall|x: int| 0 <= x < 256 implies mid.span_pixel(s, x)
                    == before.span_pixel(s, x) by {}
                assert forall|x: int| 0 <= x < 256 implies #[trigger] self@.next_sprite_buffer[x]
                    == before.line_index(i as int + 1, x) by {
                    assert(mid.next_sprite_buffer[x] == before.line_index(i as int, x));
                    assert(mid.span_pixel(s, x) == before.span_pixel(s, x));
                }
                assert forall|x: int| 0 <= x < 256 implies #[trigger] self@.next_behind_buffer[x]
                    == before.line_behind(i as int + 1, x) by {
                    assert(mid.next_behind_buffer[x] == before.line_behind(i as int, x));
                    assert(mid.next_sprite_buffer[x] == before.line_index(i as int, x));
                    assert(mid.span_pixel(s, x) == before.span_pixel(s, x));
                }
                assert forall|x: int| 0 <= x < 256 implies #[trigger] self@.next_zero_buffer[x]
                    == before.sprite_pixel(0, x) by {
                    assert(mid.next_zero_buffer[x] == if i == 0 {
                        0u8
                    } else {
                        before.sprite_pixel(0, x)
                    });
                    assert(mid.span_pixel(s, x) == before.span_pixel(s, x));
                    assert(before.in_range_count(0) == 0);
                }
            }
            i += 1;
        }
        proof {
            assert(self@.next_sprite_buffer =~= Seq::new(256, |x: int| before.line_index(64, x)));
            assert(self@.next_behind_buffer =~= Seq::new(256, |x: int| before.line_behind(64, x)));
            assert(self@.next_zero_buffer =~= Seq::new(256, |x: int| before.sprite_pixel(0, x)));
        }
    }

    /// Empties the line for the next scanline.
    fn clear_next_line(&mut self)
        requires
            old(self).wf(),
        ensures
            final(self)@ == (PPUView {
                next_sprite_buffer: final(self)@.next_sprite_buffer,
                next_behind_buffer: final(self)@.next_behind_buffer,
                next_zero_buffer: final(self)@.next_zero_buffer,
                ..old(self)@
            }),
            final(self).wf(),
            forall|x: int| 0 <= x < 256 ==> #[trigger] final(self)@.next_sprite_buffer[x] == 0,
            forall|x: int| 0 <= x < 256 ==> #[trigger] final(self)@.next_behind_buffer[x] == false,
            forall|x: int| 0 <= x < 256 ==> #[trigger] final(self)@.next_zero_buffer[x] == 0,
    {
        self.next_line_sprite_temporary_buffer = [0;256];
        self.next_line_sprite_behind_buffer = [false;256];
        self.next_line_zero_sprite_temporary_buffer = [0;256];
        proof {
            reveal(line_wf);
        }
    }

    /// Does what sprite evaluation does at the current dot.
    pub fn evaluate_sprites(&mut self)
        requires
            old(self).wf(),
        ensures
            final(self)@ == old(self)@.evaluated(),
            final(self).wf(),
    {
        if self.scan_line >= 240 {
            return ;
        }
        if self.cycles == 0 {
            self.clear_secondary();
        } else if self.cycles == 64 {
            self.select_sprites();
        } else if self.cycles == 257 {
            self.latch_sprite_line();
        }
    }

    /// Fills the secondary sprite memory with `0xFF`.
    fn clear_secondary(&mut self)
        requires
            old(self).wf(),
        ensures
            final(self)@ == (PPUView {
                secondary_oam: Seq::new(8, |i: int| Sprite::filled(0xFF)),
                ..old(self)@
            }),
            final(self).wf(),
    {
        self.secondary_oam.initialize();
    }

    /// Makes the line prepared for the next scanline the current one.
    fn latch_sprite_line(&mut self)
        requires
            old(self).wf(),
        ensures
            final(self)@ == (PPUView {
                sprite_buffer: old(self)@.next_sprite_buffer,
                behind_buffer: old(self)@.next_behind_buffer,
                zero_buffer: old(self)@.next_zero_buffer,
                ..old(self)@
            }),
            final(self).wf(),
    {
        self.sprite_temporary_buffer = self.next_line_sprite_temporary_buffer;
        self.sprite_behind_buffer = self.next_line_sprite_behind_buffer;
        self.zero_sprite_temporary_buffer = self.next_line_zero_sprite_temporary_buffer;
    }

    /// Sets and clears the flags at the current dot, and raises `nmi` when
    /// vblank begins with the interrupt enabled.
    pub fn update_status(&mut self, nmi: &mut bool)
        requires
            old(self).wf(),
        ensures
            final(self)@ == old(self)@.status_updated(),
            *final(nmi) == (*old(nmi) || old(self)@.raises_nmi()),
            final(self).wf(),
    {
        let enter: bool = self.cycles == 1 && self.scan_line == 241;
        let leave: bool = self.cycles == 1 && self.scan_line == 261;
        let raise: bool = enter && self.control.nmi_vblank;
        self.status.vblank = (self.status.vblank || enter) && !leave;
        self.status.sprite_zero_hit = self.status.sprite_zero_hit && !leave;
        self.status.sprite_overflow = self.status.sprite_overflow && !leave;
        *nmi = *nmi || raise;
    }

    /// Moves the position in the frame on by one dot.
    pub fn tick(&mut self)
        requires
            old(self).wf(),
        ensures
            final(self)@ == old(self)@.ticked(),
            final(self).wf(),
    {
        let line_ends: bool = self.cycles + 1 > 340;
        let frame_ends: bool = self.scan_line + 1 > 261;
        let cycles: usize = if line_ends {
            0
        } else {
            self.cycles + 1
        };
        let scan_line: usize = if !line_ends {
            self.scan_line
        } else if frame_ends {
            0
        } else {
            self.scan_line + 1
        };
        self.cycles = cycles;
        self.scan_line = scan_line;
    }

    /// Produces one dot: pixel, sprite evaluation, flags, counter.
    pub fn step(&mut self, display: &mut Screen, nmi: &mut bool)
        requires
            old(self).wf(),
        ensures
            final(self)@ == old(self)@.stepped(),
            old(self)@.paints(*old(display), *final(display)),
            *final(nmi) == (*old(nmi) || old(self)@.raises_nmi()),
            final(self).wf(),
    {
        self.render_pixel(display);
        self.evaluate_sprites();
        self.update_status(nmi);
        self.tick();
    }
}

/// Tests whether every entry of a line of sprite pixels is an index into
/// palette memory.
pub fn line_is_well_formed(line: &[u8; 256]) -> (ok: bool)
    ensures
        ok == line_wf(line@),
{
    proof {
        reveal(line_wf);
    }
    let mut x: usize = 0;
    while x < 256
        invariant
            x <= 256,
            forall|i: int| 0 <= i < x ==> #[trigger] line@[i] < 0x20,
        decreases 256 - x,
    {
        if line[x] >= 0x20 {
            proof {
                reveal(line_wf);
                assert(!(line@[x as int] < 0x20));
            }
            return false;
        }
        x += 1;
    }
    proof {
        reveal(line_wf);
    }
    true
}

/// Combines bit `i` of `lo` and bit `i` of `hi` into a two-bit pattern value.
pub fn pattern_bits(lo: u8, hi: u8, i: u8) -> (pattern: u8)
    requires
        i < 8,
    ensures
        pattern == pattern_value(lo, hi, i),
        pattern < 4,
{
    proof {
        lemma_pattern_value_bound(lo, hi, i);
    }
    ((lo >> i) & 1) + 2 * ((hi >> i) & 1)
}

} // verus!
