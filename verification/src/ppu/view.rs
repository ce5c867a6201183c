//! The picture unit as plain values, and every step it can take as a
//! function on them.

use crate::color::{master_color, Color};
use crate::mapper::{Mapper, Mirroring};
use crate::oam::{oam_byte, oam_port_byte, oam_with_byte, sprites_wf, OAMDMAStatus, Sprite, OAMDMA};
use crate::registers::{Address, Control, Mask, OAMAddress, Scroll, ScrollNext, Status};
use vstd::prelude::*;

verus! {

/// The frame as the host holds it: 240 rows of 256 pixels of red, green, blue.
pub type Screen = [[[u8; 3]; 256]; 240];

/// Component `channel` of the pixel in column `x` of row `y`.
pub open spec fn display_pixel(display: Screen, x: int, y: int, channel: int) -> u8 {
    display@[y]@[x]@[channel]
}

/// `after` is `before` with the pixel in column `x` of row `y` set to `color`.
pub open spec fn display_painted(
    before: Screen,
    after: Screen,
    x: int,
    y: int,
    color: Color,
) -> bool {
    forall|i: int, j: int, k: int|
        0 <= i < 256 && 0 <= j < 240 && 0 <= k < 3 ==> #[trigger] display_pixel(after, i, j, k)
            == if i == x && j == y {
            if k == 0 {
                color.0
            } else if k == 1 {
                color.1
            } else {
                color.2
            }
        } else {
            display_pixel(before, i, j, k)
        }
}

/// Index into the 2 KiB of nametable memory for an address in
/// `0x2000..=0x2FFF`: horizontal mirroring lays the four logical tables onto
/// the physical ones as 0, 0, 1, 1, vertical mirroring as 0, 1, 0, 1.
pub open spec fn vram_index(mirroring: Mirroring, address: int) -> int {
    let table = (address - 0x2000) / 0x400;
    let physical = match mirroring {
        Mirroring::Horizontal => table / 2,
        Mirroring::Vertical => table % 2,
    };
    physical * 0x400 + (address - 0x2000) % 0x400
}

/// Index into palette memory for an address in `0x3F00..=0x3FFF`: the 32
/// bytes repeat, and entries `0x10`, `0x14`, `0x18`, `0x1C` are entries
/// `0x00`, `0x04`, `0x08`, `0x0C`.
pub open spec fn palette_index(address: int) -> int {
    let i = address % 0x20;
    if i >= 0x10 && i % 4 == 0 {
        i - 0x10
    } else {
        i
    }
}

/// Bit `i` of `byte`, as 0 or 1.
pub open spec fn bit_of(byte: u8, i: u8) -> u8 {
    (byte >> i) & 1
}

/// The two-bit pattern value whose low bit is bit `i` of `lo` and whose high
/// bit is bit `i` of `hi`.
pub open spec fn pattern_value(lo: u8, hi: u8, i: u8) -> u8 {
    (bit_of(lo, i) + 2 * bit_of(hi, i)) as u8
}

/// The two bits of an attribute byte that `selector` (0 to 3) picks.
pub open spec fn attribute_palette(attribute: u8, selector: int) -> u8 {
    if selector == 0 {
        attribute & 0b0000_0011
    } else if selector == 1 {
        (attribute & 0b0000_1100) >> 2
    } else if selector == 2 {
        (attribute & 0b0011_0000) >> 4
    } else {
        (attribute & 0b1100_0000) >> 6
    }
}

/// A pattern value has two bits.
pub proof fn lemma_pattern_value_bound(lo: u8, hi: u8, i: u8)
    ensures
        bit_of(lo, i) <= 1,
        bit_of(hi, i) <= 1,
        pattern_value(lo, hi, i) < 4,
        pattern_value(lo, hi, i) == bit_of(lo, i) + 2 * bit_of(hi, i),
{
    assert((lo >> i) & 1 <= 1 && (hi >> i) & 1 <= 1) by (bit_vector);
}

/// A palette number has two bits.
pub proof fn lemma_attribute_palette_bound(attribute: u8, selector: int)
    ensures
        attribute_palette(attribute, selector) < 4,
{
    assert(attribute & 0b0000_0011 < 4 && (attribute & 0b0000_1100) >> 2 < 4 && (attribute
        & 0b0011_0000) >> 4 < 4 && (attribute & 0b1100_0000) >> 6 < 4) by (bit_vector);
}

/// The picture unit as plain values: its memories as sequences, its registers
/// as they are.
pub struct PPUView {
    pub mapper: Mapper,
    pub vram: Seq<u8>,
    pub palette_ram: Seq<u8>,
    pub chr_rom: Seq<u8>,
    pub control: Control,
    pub mask: Mask,
    pub status: Status,
    pub oam_address: OAMAddress,
    pub scroll: Scroll,
    pub address: Address,
    pub oam_dma: OAMDMA,
    pub oam: Seq<Sprite>,
    pub secondary_oam: Seq<Sprite>,
    pub sprite_buffer: Seq<u8>,
    pub next_sprite_buffer: Seq<u8>,
    pub behind_buffer: Seq<bool>,
    pub next_behind_buffer: Seq<bool>,
    pub zero_buffer: Seq<u8>,
    pub next_zero_buffer: Seq<u8>,
    pub cycles: usize,
    pub scan_line: usize,
}

/// Every entry of a line of sprite pixels is an index into palette memory.
#[verifier::opaque]
pub open spec fn line_wf(line: Seq<u8>) -> bool {
    &&& line.len() == 256
    &&& forall|x: int| 0 <= x < 256 ==> #[trigger] line[x] < 0x20
}

impl PPUView {
    /// The sizes of the memories, the ranges of the counters and the write
    /// latch that the scroll and address registers share.
    pub open spec fn wf(&self) -> bool {
        &&& self.vram.len() == 0x800
        &&& self.palette_ram.len() == 0x20
        &&& self.control.name_table < 4
        &&& self.oam_dma.wf()
        &&& self.oam.len() == 64
        &&& sprites_wf(self.oam)
        &&& self.secondary_oam.len() == 8
        &&& sprites_wf(self.secondary_oam)
        &&& line_wf(self.sprite_buffer)
        &&& line_wf(self.next_sprite_buffer)
        &&& self.behind_buffer.len() == 256
        &&& self.next_behind_buffer.len() == 256
        &&& self.zero_buffer.len() == 256
        &&& self.next_zero_buffer.len() == 256
        &&& self.cycles <= 340
        &&& self.scan_line <= 261
        &&& (self.scroll.next == ScrollNext::Y) == self.address.is_stored_first
    }

    /// Whether `other` has the memories that the processor writes, sprite
    /// memory with its pointer, the transfer engine and the registers that
    /// the processor writes as this unit has them.
    pub open spec fn same_setup(&self, other: PPUView) -> bool {
        &&& other.mapper == self.mapper
        &&& other.vram == self.vram
        &&& other.palette_ram == self.palette_ram
        &&& other.chr_rom == self.chr_rom
        &&& other.control == self.control
        &&& other.mask == self.mask
        &&& other.oam_address == self.oam_address
        &&& other.scroll == self.scroll
        &&& other.address == self.address
        &&& other.oam_dma == self.oam_dma
        &&& other.oam == self.oam
    }

    // ---------------------------------------------------------------- memory
    /// Byte `address` of pattern memory; beyond its end, 0.
    pub open spec fn chr(&self, address: int) -> u8 {
        if 0 <= address < self.chr_rom.len() {
            self.chr_rom[address]
        } else {
            0
        }
    }

    /// The nametable byte at an address in `0x2000..=0x2FFF`.
    pub open spec fn nametable_byte(&self, address: int) -> u8 {
        self.vram[vram_index(self.mapper.mirroring(), address)]
    }

    /// The byte at `address` (`0x0000..=0x3FFF`) of the unit's address space:
    /// pattern memory, then the nametables with their mirror from `0x3000`,
    /// then palette memory from `0x3F00`.
    pub open spec fn mem_byte(&self, address: int) -> u8 {
        if address < 0x2000 {
            self.chr(address)
        } else if address < 0x3F00 {
            self.nametable_byte(0x2000 + address % 0x1000)
        } else {
            self.palette_ram[palette_index(address)]
        }
    }

    /// The unit after `byte` is stored at `address` (`0x0000..=0x3FFF`) of its
    /// address space; pattern memory does not take writes.
    pub open spec fn mem_written(self, address: int, byte: u8) -> PPUView {
        if address < 0x2000 {
            self
        } else if address < 0x3F00 {
            PPUView {
                vram: self.vram.update(
                    vram_index(self.mapper.mirroring(), 0x2000 + address % 0x1000),
                    byte,
                ),
                ..self
            }
        } else {
            PPUView { palette_ram: self.palette_ram.update(palette_index(address), byte), ..self }
        }
    }

    /// The address that the data port points at.
    pub open spec fn data_address(&self) -> int {
        self.address.addr as int % 0x4000
    }

    /// The place that holds the byte at `address` (`0x0000..=0x3FFF`) of the
    /// unit's address space: two addresses that mirror each other have one
    /// place. Pattern memory comes first, then the 2 KiB of nametable
    /// memory, then the 32 bytes of palette memory.
    pub open spec fn cell(&self, address: int) -> int {
        if address < 0x2000 {
            address
        } else if address < 0x3F00 {
            0x2000 + vram_index(self.mapper.mirroring(), 0x2000 + address % 0x1000)
        } else {
            0x2800 + palette_index(address)
        }
    }

    // ------------------------------------------------------------- registers
    /// The byte that a read of register `address` returns.
    pub open spec fn read_value(&self, address: int) -> u8 {
        if 0 <= address < 0x2000 {
            self.chr(address)
        } else if address == 0x2002 {
            self.status.as_byte()
        } else if address == 0x2004 {
            oam_port_byte(
                self.oam_address.addr as int,
                oam_byte(self.oam, self.oam_address.addr as int),
            )
        } else if address == 0x2007 {
            self.mem_byte(self.data_address())
        } else {
            0
        }
    }

    /// The unit after a read of register `address`: a read of the status
    /// register clears the vblank flag and the write latch, a read of the data
    /// port moves the pointer on.
    pub open spec fn after_read(self, address: int) -> PPUView {
        if address == 0x2002 {
            PPUView {
                status: Status { vblank: false, ..self.status },
                scroll: Scroll { next: ScrollNext::X, ..self.scroll },
                address: Address { is_stored_first: false, ..self.address },
                ..self
            }
        } else if address == 0x2007 {
            PPUView {
                address: self.address.incremented(self.control.increment_address),
                ..self
            }
        } else {
            self
        }
    }

    /// The unit after `byte` is written to register `address`.
    pub open spec fn after_write(self, address: int, byte: u8) -> PPUView {
        if address == 0x2000 {
            PPUView { control: Control::from_byte(byte), ..self }
        } else if address == 0x2001 {
            PPUView { mask: Mask::from_byte(byte), ..self }
        } else if address == 0x2003 {
            PPUView { oam_address: OAMAddress { addr: byte }, ..self }
        } else if address == 0x2004 {
            PPUView {
                oam: oam_with_byte(self.oam, self.oam_address.addr as int, byte),
                oam_address: OAMAddress { addr: ((self.oam_address.addr + 1) % 0x100) as u8 },
                ..self
            }
        } else if address == 0x2005 {
            PPUView {
                scroll: self.scroll.written(byte),
                address: Address { is_stored_first: !self.address.is_stored_first, ..self.address },
                ..self
            }
        } else if address == 0x2006 {
            PPUView {
                address: self.address.written(byte),
                scroll: Scroll {
                    next: if self.address.is_stored_first {
                        ScrollNext::X
                    } else {
                        ScrollNext::Y
                    },
                    ..self.scroll
                },
                ..self
            }
        } else if address == 0x2007 {
            PPUView {
                address: self.address.incremented(self.control.increment_address),
                ..self.mem_written(self.data_address(), byte)
            }
        } else if address == 0x4014 {
            PPUView { oam_dma: OAMDMA::scheduled(byte), ..self }
        } else {
            self
        }
    }

    /// The unit after the processor has pointed the data port at `address`:
    /// a read of the status register, which clears the write latch, then a
    /// write of the high and one of the low byte to the address register.
    pub open spec fn pointed(self, address: u16) -> PPUView {
        self.after_read(0x2002).after_write(0x2006, (address / 0x100) as u8).after_write(
            0x2006,
            (address % 0x100) as u8,
        )
    }

    /// The unit after the transfer engine has stored `byte`: it lands at the
    /// sprite-memory pointer plus the number of bytes already moved, modulo
    /// 256, and the engine moves on.
    pub open spec fn after_dma_write(self, byte: u8) -> PPUView {
        PPUView {
            oam: oam_with_byte(
                self.oam,
                (0x100 - self.oam_dma.remains + self.oam_address.addr) % 0x100,
                byte,
            ),
            oam_dma: self.oam_dma.ticked(),
            ..self
        }
    }

    /// The unit after the waiting transfer has been started.
    pub open spec fn after_dma_start(self) -> PPUView {
        PPUView {
            oam_dma: OAMDMA {
                status: OAMDMAStatus::Running(self.oam_dma.current_addr),
                ..self.oam_dma
            },
            ..self
        }
    }

    // ------------------------------------------------------------ background
    /// Column of screen column `x` in the plane of the four nametables, which
    /// is 512 wide.
    pub open spec fn plane_x(&self, x: int) -> int {
        (x + self.scroll.x + (self.control.name_table % 2) * 256) % 512
    }

    /// Row of screen row `y` in the plane of the four nametables, which is
    /// 480 high.
    pub open spec fn plane_y(&self, y: int) -> int {
        (y + self.scroll.y + (self.control.name_table / 2) * 240) % 480
    }

    /// Start of the logical nametable under screen position (`x`, `y`).
    pub open spec fn background_base(&self, x: int, y: int) -> int {
        0x2000 + 0x400 * (self.plane_x(x) / 256 + 2 * (self.plane_y(y) / 240))
    }

    /// The tile under screen position (`x`, `y`).
    pub open spec fn background_tile(&self, x: int, y: int) -> u8 {
        let px = self.plane_x(x) % 256;
        let py = self.plane_y(y) % 240;
        self.nametable_byte(self.background_base(x, y) + px / 8 + (py / 8) * 32)
    }

    /// The background palette (0 to 3) under screen position (`x`, `y`).
    pub open spec fn background_palette(&self, x: int, y: int) -> u8 {
        let px = self.plane_x(x) % 256;
        let py = self.plane_y(y) % 240;
        attribute_palette(
            self.nametable_byte(self.background_base(x, y) + 0x3C0 + px / 32 + (py / 32) * 8),
            ((py / 16) % 2) * 2 + (px / 16) % 2,
        )
    }

    /// The pattern value (0 to 3) at (`x`, `y`) of tile `tile_number` in the
    /// pattern table at `base`.
    pub open spec fn tile_pattern(&self, base: int, tile_number: u8, x: int, y: int) -> u8 {
        pattern_value(
            self.chr(base + tile_number * 16 + y),
            self.chr(base + tile_number * 16 + y + 8),
            (7 - x) as u8,
        )
    }

    /// Start of the background's pattern table.
    pub open spec fn background_table(&self) -> int {
        if self.control.background_pattern_table {
            0x1000
        } else {
            0
        }
    }

    /// The background's pattern value (0 to 3) at screen position (`x`, `y`).
    pub open spec fn background_pattern(&self, x: int, y: int) -> u8 {
        self.tile_pattern(
            self.background_table(),
            self.background_tile(x, y),
            self.plane_x(x) % 8,
            self.plane_y(y) % 8,
        )
    }

    /// The background's index into palette memory at screen position
    /// (`x`, `y`): 0 where the background is transparent, else four times the
    /// palette plus the pattern value.
    pub open spec fn background_index(&self, x: int, y: int) -> u8 {
        if self.background_pattern(x, y) == 0 {
            0
        } else {
            (self.background_palette(x, y) * 4 + self.background_pattern(x, y)) as u8
        }
    }

    // --------------------------------------------------------------- sprites
    /// The pattern value (0 to 3) of `sprite` in its row `row` (from its top
    /// on screen) and column `column` (from its left on screen). An 8-row
    /// sprite takes its tile from the sprite pattern table; a 16-row sprite
    /// takes its table from bit 0 of the tile number and its two tiles from
    /// the other bits.
    pub open spec fn sprite_pattern(&self, sprite: Sprite, row: int, column: int) -> u8 {
        let i = if sprite.attribute.hflip {
            column
        } else {
            7 - column
        };
        if self.control.sprites_size {
            let r = if sprite.attribute.vflip {
                15 - row
            } else {
                row
            };
            let base = (sprite.tile_number % 2) * 0x1000;
            let tile = (sprite.tile_number - sprite.tile_number % 2) + r / 8;
            pattern_value(
                self.chr(base + tile * 16 + r % 8),
                self.chr(base + tile * 16 + r % 8 + 8),
                i as u8,
            )
        } else {
            let r = if sprite.attribute.vflip {
                7 - row
            } else {
                row
            };
            let base: int = if self.control.sprites_pattern_table {
                0x1000
            } else {
                0
            };
            pattern_value(
                self.chr(base + sprite.tile_number * 16 + r),
                self.chr(base + sprite.tile_number * 16 + r + 8),
                i as u8,
            )
        }
    }

    /// Whether sprite `i` has a row on the current scanline.
    pub open spec fn sprite_in_range(&self, i: int) -> bool {
        self.oam[i].covers(self.scan_line as int, self.control.sprite_height())
    }

    /// How many of the first `n` sprites have a row on the current scanline.
    pub open spec fn in_range_count(&self, n: int) -> int
        decreases n,
    {
        if n <= 0 {
            0
        } else {
            self.in_range_count(n - 1) + if self.sprite_in_range(n - 1) {
                1int
            } else {
                0
            }
        }
    }

    /// Whether sprite `i` is one of the first eight with a row on the current
    /// scanline.
    pub open spec fn sprite_selected(&self, i: int) -> bool {
        self.sprite_in_range(i) && self.in_range_count(i) < 8
    }

    /// The pattern value that `sprite`, if it has a row on the current
    /// scanline, puts on column `x`: 0 where it does not reach.
    pub open spec fn span_pixel(&self, sprite: Sprite, x: int) -> u8 {
        if sprite.x <= x < sprite.x + 8 {
            self.sprite_pattern(sprite, self.scan_line - sprite.y, x - sprite.x)
        } else {
            0
        }
    }

    /// The pattern value that sprite `i` puts on column `x` of the current
    /// scanline: 0 where it is not selected or does not reach.
    pub open spec fn sprite_pixel(&self, i: int, x: int) -> u8 {
        if self.sprite_selected(i) {
            self.span_pixel(self.oam[i], x)
        } else {
            0
        }
    }

    /// Index into palette memory of the sprite pixel on column `x` once the
    /// first `n` sprites are drawn, 0 where none is opaque: among the
    /// selected sprites the first one in sprite memory with an opaque pixel
    /// there gives it, and a later one shows only where every earlier one is
    /// transparent.
    pub open spec fn line_index(&self, n: int, x: int) -> u8
        decreases n,
    {
        if n <= 0 {
            0
        } else if self.line_index(n - 1, x) == 0 && self.sprite_pixel(n - 1, x) != 0 {
            (0x10 + self.oam[n - 1].attribute.palette * 4 + self.sprite_pixel(n - 1, x)) as u8
        } else {
            self.line_index(n - 1, x)
        }
    }

    /// Whether the sprite pixel on column `x`, once the first `n` sprites are
    /// drawn, belongs to a sprite that goes behind the background.
    pub open spec fn line_behind(&self, n: int, x: int) -> bool
        decreases n,
    {
        if n <= 0 {
            false
        } else if self.line_index(n - 1, x) == 0 && self.sprite_pixel(n - 1, x) != 0 {
            self.oam[n - 1].attribute.priority
        } else {
            self.line_behind(n - 1, x)
        }
    }

    /// The secondary sprite memory once the first `n` sprites are examined:
    /// each selected sprite is stored at the place of its rank.
    pub open spec fn secondary_filled(&self, n: int) -> Seq<Sprite>
        decreases n,
    {
        if n <= 0 {
            self.secondary_oam
        } else if self.sprite_selected(n - 1) {
            self.secondary_filled(n - 1).update(self.in_range_count(n - 1), self.oam[n - 1])
        } else {
            self.secondary_filled(n - 1)
        }
    }

    /// The unit after sprite evaluation at the current dot. On a visible
    /// scanline, dot 0 fills the secondary sprite memory with `0xFF`; dot 64
    /// selects the sprites of this scanline, flags an overflow when a ninth
    /// is in range, and draws the selected ones into the line for the next
    /// scanline; dot 257 makes that line the current one.
    pub open spec fn evaluated(self) -> PPUView {
        if self.scan_line >= 240 {
            self
        } else if self.cycles == 0 {
            PPUView { secondary_oam: Seq::new(8, |i: int| Sprite::filled(0xFF)), ..self }
        } else if self.cycles == 64 {
            PPUView {
                secondary_oam: self.secondary_filled(64),
                status: Status {
                    sprite_overflow: self.status.sprite_overflow || self.in_range_count(64) > 8,
                    ..self.status
                },
                next_sprite_buffer: Seq::new(256, |x: int| self.line_index(64, x)),
                next_behind_buffer: Seq::new(256, |x: int| self.line_behind(64, x)),
                next_zero_buffer: Seq::new(256, |x: int| self.sprite_pixel(0, x)),
                ..self
            }
        } else if self.cycles == 257 {
            PPUView {
                sprite_buffer: self.next_sprite_buffer,
                behind_buffer: self.next_behind_buffer,
                zero_buffer: self.next_zero_buffer,
                ..self
            }
        } else {
            self
        }
    }

    // ---------------------------------------------------------------- pixels
    /// Whether the current dot puts a pixel on screen.
    pub open spec fn visible(&self) -> bool {
        1 <= self.cycles <= 256 && self.scan_line < 240
    }

    /// Whether the sprite pixel wins on column `x` of the current scanline:
    /// it is opaque, and in front of the background or over a transparent
    /// background pixel.
    pub open spec fn sprite_shown(&self, x: int) -> bool {
        self.sprite_buffer[x] != 0 && (!self.behind_buffer[x] || self.background_index(
            x,
            self.scan_line as int,
        ) == 0)
    }

    /// Index into palette memory of the pixel on column `x` of the current
    /// scanline.
    pub open spec fn pixel_index(&self, x: int) -> u8 {
        if self.sprite_shown(x) {
            self.sprite_buffer[x]
        } else {
            self.background_index(x, self.scan_line as int)
        }
    }

    /// The colour of the pixel on column `x` of the current scanline.
    pub open spec fn pixel_color(&self, x: int) -> Color {
        master_color(self.palette_ram[self.pixel_index(x) as int])
    }

    /// Whether the pixel on column `x` of the current scanline sets the
    /// sprite-zero hit: the flag is not yet set, background and sprites are
    /// both switched on, sprite zero and the background are both opaque
    /// there, the column is not the last one, and it is not one of the first
    /// eight while either is clipped on the left.
    pub open spec fn zero_hit_at(&self, x: int) -> bool {
        &&& !self.status.sprite_zero_hit
        &&& x != 255
        &&& self.mask.background && self.mask.sprite
        &&& self.zero_buffer[x] != 0
        &&& x >= 8 || (self.mask.background_left_column && self.mask.sprite_left_column)
        &&& self.background_index(x, self.scan_line as int) != 0
    }

    /// The unit after the pixel of the current dot is produced.
    pub open spec fn rendered(self) -> PPUView {
        if self.visible() && self.zero_hit_at(self.cycles - 1) {
            PPUView { status: Status { sprite_zero_hit: true, ..self.status }, ..self }
        } else {
            self
        }
    }

    /// The frame after the pixel of the current dot is produced.
    pub open spec fn paints(&self, before: Screen, after: Screen) -> bool {
        if self.visible() {
            display_painted(
                before,
                after,
                self.cycles - 1,
                self.scan_line as int,
                self.pixel_color(self.cycles - 1),
            )
        } else {
            after == before
        }
    }

    // ---------------------------------------------------------------- timing
    /// Whether the current dot raises the interrupt line: dot 1 of scanline
    /// 241 with the interrupt enabled.
    pub open spec fn raises_nmi(&self) -> bool {
        self.cycles == 1 && self.scan_line == 241 && self.control.nmi_vblank
    }

    /// The unit after the flags are updated at the current dot: dot 1 of
    /// scanline 241 sets vblank, dot 1 of scanline 261 clears vblank,
    /// sprite-zero hit and sprite overflow.
    pub open spec fn status_updated(self) -> PPUView {
        if self.cycles == 1 && self.scan_line == 241 {
            PPUView { status: Status { vblank: true, ..self.status }, ..self }
        } else if self.cycles == 1 && self.scan_line == 261 {
            PPUView {
                status: Status { vblank: false, sprite_zero_hit: false, sprite_overflow: false },
                ..self
            }
        } else {
            self
        }
    }

    /// The unit after the dot counter moves on: 341 dots to a scanline, 262
    /// scanlines to a frame.
    pub open spec fn ticked(self) -> PPUView {
        if self.cycles + 1 > 340 {
            PPUView {
                cycles: 0,
                scan_line: if self.scan_line + 1 > 261 {
                    0
                } else {
                    (self.scan_line + 1) as usize
                },
                ..self
            }
        } else {
            PPUView { cycles: (self.cycles + 1) as usize, ..self }
        }
    }

    /// The unit after one dot: pixel, sprite evaluation, flags, counter.
    pub open spec fn stepped(self) -> PPUView {
        self.rendered().evaluated().status_updated().ticked()
    }

    /// The unit after `n` dots.
    pub open spec fn stepped_n(self, n: nat) -> PPUView
        decreases n,
    {
        if n == 0 {
            self
        } else {
            self.stepped_n((n - 1) as nat).stepped()
        }
    }

    /// Whether one of the next `n` dots raises the interrupt line.
    pub open spec fn nmi_within(self, n: nat) -> bool
        decreases n,
    {
        if n == 0 {
            false
        } else {
            self.nmi_within((n - 1) as nat) || self.stepped_n((n - 1) as nat).raises_nmi()
        }
    }

    /// Component `channel` of the pixel in column `x` of row `y` once the
    /// next `n` dots have painted onto the frame `before`.
    pub open spec fn shown(self, n: nat, before: Screen, x: int, y: int, channel: int) -> u8
        decreases n,
    {
        if n == 0 {
            display_pixel(before, x, y, channel)
        } else {
            let at = self.stepped_n((n - 1) as nat);
            if at.visible() && x == at.cycles - 1 && y == at.scan_line {
                let color = at.pixel_color(x);
                if channel == 0 {
                    color.0
                } else if channel == 1 {
                    color.1
                } else {
                    color.2
                }
            } else {
                self.shown((n - 1) as nat, before, x, y, channel)
            }
        }
    }

    /// `after` is the frame `before` once the next `n` dots have painted.
    pub open spec fn paints_n(self, n: nat, before: Screen, after: Screen) -> bool {
        forall|i: int, j: int, k: int|
            0 <= i < 256 && 0 <= j < 240 && 0 <= k < 3 ==> #[trigger] display_pixel(after, i, j, k)
                == self.shown(n, before, i, j, k)
    }
}

/// Painting one dot onto a frame on which `n` dots have painted gives the
/// frame on which `n + 1` dots have painted.
pub proof fn lemma_paints_next(
    start: PPUView,
    n: nat,
    before: Screen,
    middle: Screen,
    after: Screen,
)
    requires
        start.paints_n(n, before, middle),
        start.stepped_n(n).paints(middle, after),
    ensures
        start.paints_n(n + 1, before, after),
{
    let at = start.stepped_n(n);
    assert forall|i: int, j: int, k: int|
        0 <= i < 256 && 0 <= j < 240 && 0 <= k < 3 implies #[trigger] display_pixel(after, i, j, k)
        == start.shown(n + 1, before, i, j, k) by {
        assert(display_pixel(middle, i, j, k) == start.shown(n, before, i, j, k));
        if at.visible() {
            assert(display_painted(
                middle,
                after,
                at.cycles - 1,
                at.scan_line as int,
                at.pixel_color(at.cycles - 1),
            ));
        } else {
            assert(after == middle);
        }
    }
}

} // verus!
