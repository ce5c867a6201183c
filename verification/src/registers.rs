//! The registers of the picture unit that the processor writes and reads.

use vstd::prelude::*;

verus! {

/// PPUCTRL, the control register at `0x2000`.
#[derive(Default, Debug, Clone, Copy)]
pub struct Control {
    pub name_table: u8,
    pub increment_address: bool,
    pub sprites_pattern_table: bool,
    pub background_pattern_table: bool,
    pub sprites_size: bool,
    pub master_slave: bool,
    pub nmi_vblank: bool,
}

impl Control {
    /// The register contents that a written byte decodes to.
    pub open spec fn from_byte(byte: u8) -> Control {
        Control {
            name_table: byte & 0b0000_0011,
            increment_address: byte & 0b0000_0100 != 0,
            sprites_pattern_table: byte & 0b0000_1000 != 0,
            background_pattern_table: byte & 0b0001_0000 != 0,
            sprites_size: byte & 0b0010_0000 != 0,
            master_slave: byte & 0b0100_0000 != 0,
            nmi_vblank: byte & 0b1000_0000 != 0,
        }
    }

    /// Start of the logical nametable that the register selects.
    pub open spec fn nametable_base(&self) -> int {
        if self.name_table < 4 {
            0x2000 + 0x400 * self.name_table
        } else {
            0
        }
    }

    /// Amount by which one access through the data port moves the VRAM pointer.
    pub open spec fn address_step(&self) -> int {
        if self.increment_address {
            32
        } else {
            1
        }
    }

    /// Rows of a sprite: 8, or 16 when the size bit is set.
    pub open spec fn sprite_height(&self) -> int {
        if self.sprites_size {
            16
        } else {
            8
        }
    }

    /// Decodes a byte into the register.
    pub fn set_as_u8(&mut self, byte: u8)
        ensures
            *final(self) == Control::from_byte(byte),
            final(self).name_table < 4,
    {
        assert(byte & 0b0000_0011 < 4) by (bit_vector);
        self.name_table = byte & 0b0000_0011;
        self.increment_address = byte & 0b0000_0100 > 0;
        self.sprites_pattern_table = byte & 0b0000_1000 > 0;
        self.background_pattern_table = byte & 0b0001_0000 > 0;
        self.sprites_size = byte & 0b0010_0000 > 0;
        self.master_slave = byte & 0b0100_0000 > 0;
        self.nmi_vblank = byte & 0b1000_0000 > 0;
    }

    /// Start of the logical nametable that the register selects.
    pub fn get_nametable_base_address(&self) -> (base: usize)
        ensures
            base == self.nametable_base(),
    {
        match self.name_table {
            0b00 => 0x2000,
            0b01 => 0x2400,
            0b10 => 0x2800,
            0b11 => 0x2C00,
            _ => 0,
        }
    }

    /// Start of the pattern table for 8-row sprites.
    pub fn get_sprites_pattern_table_base_address(&self) -> (base: usize)
        ensures
            base == if self.sprites_pattern_table { 0x1000usize } else { 0usize },
    {
        if self.sprites_pattern_table {
            0x1000
        } else {
            0x0
        }
    }

    /// Start of the pattern table for the background.
    pub fn get_background_pattern_table_base_address(&self) -> (base: usize)
        ensures
            base == if self.background_pattern_table { 0x1000usize } else { 0usize },
    {
        if self.background_pattern_table {
            0x1000
        } else {
            0x0
        }
    }
}

/// PPUMASK, the rendering switches at `0x2001`.
#[derive(Default, Debug, Clone, Copy)]
pub struct Mask {
    pub greyscale: bool,
    pub background_left_column: bool,
    pub sprite_left_column: bool,
    pub background: bool,
    pub sprite: bool,
    pub emphasis_red: bool,
    pub emphasis_green: bool,
    pub emphasis_blue: bool,
}

impl Mask {
    /// The switches that a written byte decodes to.
    pub open spec fn from_byte(byte: u8) -> Mask {
        Mask {
            greyscale: byte & 0b0000_0001 != 0,
            background_left_column: byte & 0b0000_0010 != 0,
            sprite_left_column: byte & 0b0000_0100 != 0,
            background: byte & 0b0000_1000 != 0,
            sprite: byte & 0b0001_0000 != 0,
            emphasis_red: byte & 0b0010_0000 != 0,
            emphasis_green: byte & 0b0100_0000 != 0,
            emphasis_blue: byte & 0b1000_0000 != 0,
        }
    }

    /// Decodes a byte into the switches.
    pub fn set_as_u8(&mut self, byte: u8)
        ensures
            *final(self) == Mask::from_byte(byte),
    {
        self.greyscale = byte & 0b0000_0001 > 0;
        self.background_left_column = byte & 0b0000_0010 > 0;
        self.sprite_left_column = byte & 0b0000_0100 > 0;
        self.background = byte & 0b0000_1000 > 0;
        self.sprite = byte & 0b0001_0000 > 0;
        self.emphasis_red = byte & 0b0010_0000 > 0;
        self.emphasis_green = byte & 0b0100_0000 > 0;
        self.emphasis_blue = byte & 0b1000_0000 > 0;
    }
}

/// PPUSTATUS, the flags read at `0x2002`.
#[derive(Default, Debug, Clone, Copy)]
pub struct Status {
    pub sprite_overflow: bool,
    pub sprite_zero_hit: bool,
    pub vblank: bool,
}

impl Status {
    /// The byte that a read of the register returns: vblank in bit 7,
    /// sprite-zero hit in bit 6, sprite overflow in bit 5.
    pub open spec fn as_byte(&self) -> u8 {
        ((if self.vblank { 0x80int } else { 0 })
            + (if self.sprite_zero_hit { 0x40int } else { 0 })
            + (if self.sprite_overflow { 0x20int } else { 0 })) as u8
    }

    /// The byte that a read of the register returns.
    pub fn get_as_u8(&self) -> (byte: u8)
        ensures
            byte == self.as_byte(),
    {
        let mut byte: u8 = 0;
        if self.vblank {
            byte = byte + 0x80;
        }
        if self.sprite_zero_hit {
            byte = byte + 0x40;
        }
        if self.sprite_overflow {
            byte = byte + 0x20;
        }
        byte
    }

    /// Sets the vblank flag.
    pub fn set_vblank(&mut self)
        ensures
            *final(self) == (Status { vblank: true, ..*old(self) }),
    {
        self.vblank = true;
    }

    /// Clears the vblank flag.
    pub fn clear_vblank(&mut self)
        ensures
            *final(self) == (Status { vblank: false, ..*old(self) }),
    {
        self.vblank = false;
    }

    /// Sets the sprite-zero hit.
    pub fn set_zero_hit(&mut self)
        ensures
            *final(self) == (Status { sprite_zero_hit: true, ..*old(self) }),
    {
        self.sprite_zero_hit = true;
    }

    /// Clears the sprite-zero hit.
    pub fn clear_zero_hit(&mut self)
        ensures
            *final(self) == (Status { sprite_zero_hit: false, ..*old(self) }),
    {
        self.sprite_zero_hit = false;
    }

    /// Bit 7 of the status byte is the vblank flag, bit 6 the sprite-zero hit
    /// and bit 5 the sprite overflow; the low five bits are clear.
    pub proof fn lemma_as_byte_bits(self)
        ensures
            (self.as_byte() & 0x80 != 0) == self.vblank,
            (self.as_byte() & 0x40 != 0) == self.sprite_zero_hit,
            (self.as_byte() & 0x20 != 0) == self.sprite_overflow,
            self.as_byte() & 0x1F == 0,
    {
        let b = self.as_byte();
        let v: u8 = if self.vblank { 1 } else { 0 };
        let z: u8 = if self.sprite_zero_hit { 1 } else { 0 };
        let o: u8 = if self.sprite_overflow { 1 } else { 0 };
        assert(b == 0x80 * v + 0x40 * z + 0x20 * o);
        assert((b & 0x80 != 0) == (v == 1) && (b & 0x40 != 0) == (z == 1) && (b & 0x20 != 0) == (o
            == 1) && b & 0x1F == 0) by (bit_vector)
            requires
                v <= 1,
                z <= 1,
                o <= 1,
                b == 0x80 * v + 0x40 * z + 0x20 * o,
        ;
    }
}

/// OAMADDR, the sprite-memory pointer at `0x2003`.
#[derive(Default, Debug, Clone, Copy)]
pub struct OAMAddress {
    pub addr: u8,
}

impl OAMAddress {
    /// Sets the pointer.
    pub fn write_byte(&mut self, byte: u8)
        ensures
            final(self).addr == byte,
    {
        self.addr = byte;
    }
}

/// Which half of a two-byte register the next write fills.
#[derive(Debug, Clone, Copy, PartialEq, Eq, Structural)]
pub enum ScrollNext {
    X,
    Y,
}

impl Default for ScrollNext {
    fn default() -> (next: Self)
        ensures
            next == ScrollNext::X,
    {
        ScrollNext::X
    }
}

/// PPUSCROLL, the scroll position written in two steps at `0x2005`.
#[derive(Debug, Clone, Copy)]
pub struct Scroll {
    pub x: u8,
    pub y: u8,
    pub next: ScrollNext,
}

impl Scroll {
    /// The register after one write: the first write of a pair sets the
    /// horizontal position, the second the vertical one.
    pub open spec fn written(self, byte: u8) -> Scroll {
        match self.next {
            ScrollNext::X => Scroll { x: byte, y: self.y, next: ScrollNext::Y },
            ScrollNext::Y => Scroll { x: self.x, y: byte, next: ScrollNext::X },
        }
    }

    /// Takes one write: the horizontal position first, then the vertical one.
    pub fn set_as_u8(&mut self, byte: u8)
        ensures
            *final(self) == old(self).written(byte),
    {
        match self.next {
            ScrollNext::X => {
                self.x = byte;
                self.next = ScrollNext::Y;
            },
            ScrollNext::Y => {
                self.y = byte;
                self.next = ScrollNext::X;
            },
        }
    }

    /// Makes the next write the first of a pair.
    pub fn reset_latch(&mut self)
        ensures
            *final(self) == (Scroll { next: ScrollNext::X, ..*old(self) }),
    {
        self.next = ScrollNext::X;
    }
}

/// PPUADDR, the VRAM pointer written in two steps at `0x2006`.
#[derive(Default, Debug, Clone, Copy)]
pub struct Address {
    pub addr: u16,
    pub is_stored_first: bool,
}

impl Address {
    /// The register after one write: the first write of a pair sets the high
    /// byte and clears the low one, the second sets the low byte.
    pub open spec fn written(self, byte: u8) -> Address {
        if !self.is_stored_first {
            Address { addr: (byte as int * 0x100) as u16, is_stored_first: true }
        } else {
            Address {
                addr: ((self.addr as int / 0x100) * 0x100 + byte as int) as u16,
                is_stored_first: false,
            }
        }
    }

    /// The register after one access through the data port: the pointer moves
    /// on by 32 or by 1 and wraps at 16 bits.
    pub open spec fn incremented(self, large_increment: bool) -> Address {
        Address {
            addr: ((self.addr as int + (if large_increment { 32int } else { 1 })) % 0x10000) as u16,
            is_stored_first: self.is_stored_first,
        }
    }

    /// Takes one write: the high byte first, then the low one.
    pub fn set_as_u8(&mut self, byte: u8)
        ensures
            *final(self) == old(self).written(byte),
    {
        if !self.is_stored_first {
            self.addr = (byte as u16) * 0x100;
        } else {
            self.addr = (self.addr / 0x100) * 0x100 + (byte as u16);
        }
        self.is_stored_first = !self.is_stored_first;
    }

    /// Moves the pointer on by 32 or by 1.
    pub fn increment_address(&mut self, large_increment: bool)
        ensures
            *final(self) == old(self).incremented(large_increment),
    {
        let step: u16 = if large_increment { 32 } else { 1 };
        self.addr = self.addr.wrapping_add(step);
    }

    /// The pointer.
    pub fn get(&self) -> (addr: u16)
        ensures
            addr == self.addr,
    {
        self.addr
    }

    /// Makes the next write the first of a pair.
    pub fn reset_latch(&mut self)
        ensures
            *final(self) == (Address { is_stored_first: false, ..*old(self) }),
    {
        self.is_stored_first = false;
    }
}

} // verus!
