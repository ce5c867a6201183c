//! What holds of the picture unit whatever its state: how its memories
//! mirror, what reads of the status register do, when sprite zero hits,
//! what a dot leaves alone.

use crate::ppu::view::{
    lemma_attribute_palette_bound, lemma_pattern_value_bound, line_wf, palette_index, vram_index,
    PPUView,
};
use crate::mapper::Mirroring;
use crate::oam::{oam_with_byte, sprites_wf, Sprite, SpriteAttribute};
use crate::registers::{Address, Scroll, ScrollNext, Status};
use vstd::prelude::*;

verus! {

/// Pointing the data port at an address sets the pointer to it, clears the
/// write latch and the vblank flag, and leaves everything else as it was.
pub proof fn lemma_pointed(ppu: PPUView, address: u16)
    requires
        ppu.wf(),
    ensures
        ppu.pointed(address) == (PPUView {
            address: Address { addr: address, is_stored_first: false },
            scroll: Scroll { next: ScrollNext::X, ..ppu.scroll },
            status: Status { vblank: false, ..ppu.status },
            ..ppu
        }),
        ppu.pointed(address).wf(),
        ppu.pointed(address).data_address() == address % 0x4000,
{
    let high = (address / 0x100) as u8;
    let low = (address % 0x100) as u8;
    let cleared = ppu.after_read(0x2002);
    assert(cleared == (PPUView {
        address: Address { is_stored_first: false, ..ppu.address },
        scroll: Scroll { next: ScrollNext::X, ..ppu.scroll },
        status: Status { vblank: false, ..ppu.status },
        ..ppu
    }));
    let first = cleared.after_write(0x2006, high);
    assert(first == (PPUView {
        address: Address { addr: (high * 0x100) as u16, is_stored_first: true },
        scroll: Scroll { next: ScrollNext::Y, ..ppu.scroll },
        ..cleared
    }));
    let second = first.after_write(0x2006, low);
    assert(second.address == (Address { addr: address, is_stored_first: false }));
    assert(second.scroll == cleared.scroll);
}

/// Storing a byte at an address of the unit's address space changes the
/// byte at every address that shares its place, unless that is in pattern
/// memory, which takes no writes; it changes no other byte, and nothing but
/// nametable or palette memory.
pub proof fn lemma_mem_written(ppu: PPUView, at: int, byte: u8)
    requires
        ppu.wf(),
        0 <= at < 0x4000,
    ensures
        ppu.mem_written(at, byte).wf(),
        ppu.mem_written(at, byte) == (PPUView {
            vram: ppu.mem_written(at, byte).vram,
            palette_ram: ppu.mem_written(at, byte).palette_ram,
            ..ppu
        }),
        forall|address: int|
            0 <= address < 0x4000 ==> #[trigger] ppu.mem_written(at, byte).mem_byte(address)
                == if address >= 0x2000 && ppu.cell(address) == ppu.cell(at) {
                byte
            } else {
                ppu.mem_byte(address)
            },
{
    let written = ppu.mem_written(at, byte);
    lemma_cells(ppu, at);
    if at < 0x2000 {
        assert(written == ppu);
        assert forall|address: int| 0 <= address < 0x4000 implies #[trigger] written.mem_byte(
            address,
        ) == if address >= 0x2000 && ppu.cell(address) == ppu.cell(at) {
            byte
        } else {
            ppu.mem_byte(address)
        } by {
            lemma_cells(ppu, address);
        }
    } else if at < 0x3F00 {
        let index = vram_index(ppu.mapper.mirroring(), 0x2000 + at % 0x1000);
        lemma_nametable_mirror(ppu.mapper.mirroring(), 0x2000 + at % 0x1000);
        assert(written.vram == ppu.vram.update(index, byte));
        assert(written.palette_ram == ppu.palette_ram);
        assert forall|address: int| 0 <= address < 0x4000 implies #[trigger] written.mem_byte(
            address,
        ) == if address >= 0x2000 && ppu.cell(address) == ppu.cell(at) {
            byte
        } else {
            ppu.mem_byte(address)
        } by {
            lemma_cells(ppu, address);
            if 0x2000 <= address < 0x3F00 {
                lemma_nametable_mirror(ppu.mapper.mirroring(), 0x2000 + address % 0x1000);
            }
        }
    } else {
        let index = palette_index(at);
        assert(0 <= index < 0x20);
        assert(written.palette_ram == ppu.palette_ram.update(index, byte));
        assert(written.vram == ppu.vram);
        assert forall|address: int| 0 <= address < 0x4000 implies #[trigger] written.mem_byte(
            address,
        ) == if address >= 0x2000 && ppu.cell(address) == ppu.cell(at) {
            byte
        } else {
            ppu.mem_byte(address)
        } by {
            lemma_cells(ppu, address);
        }
    }
}

/// A write to the data port stores the byte in the place that the pointer
/// selects, unless that is in pattern memory, which takes no writes; a read
/// of the data port returns what is there. Both move the pointer on and
/// change nothing else.
pub proof fn lemma_data_port(ppu: PPUView, byte: u8)
    requires
        ppu.wf(),
    ensures
        ppu.after_write(0x2007, byte).wf(),
        ppu.after_write(0x2007, byte) == (PPUView {
            address: ppu.address.incremented(ppu.control.increment_address),
            vram: ppu.after_write(0x2007, byte).vram,
            palette_ram: ppu.after_write(0x2007, byte).palette_ram,
            ..ppu
        }),
        ppu.read_value(0x2007) == ppu.mem_byte(ppu.data_address()),
        ppu.after_read(0x2007) == (PPUView {
            address: ppu.address.incremented(ppu.control.increment_address),
            ..ppu
        }),
        forall|address: int|
            0 <= address < 0x4000 ==> #[trigger] ppu.after_write(0x2007, byte).mem_byte(address)
                == if address >= 0x2000 && ppu.cell(address) == ppu.cell(ppu.data_address()) {
                byte
            } else {
                ppu.mem_byte(address)
            },
{
    let at = ppu.data_address();
    lemma_mem_written(ppu, at, byte);
    let written = ppu.mem_written(at, byte);
    let stored = ppu.after_write(0x2007, byte);
    assert(stored == (PPUView {
        address: ppu.address.incremented(ppu.control.increment_address),
        ..written
    }));
    assert forall|address: int| 0 <= address < 0x4000 implies #[trigger] stored.mem_byte(address)
        == written.mem_byte(address) by {}
}

/// Every address has its place within the memory it belongs to.
pub proof fn lemma_cells(ppu: PPUView, address: int)
    requires
        0 <= address < 0x4000,
    ensures
        address < 0x2000 ==> ppu.cell(address) == address,
        0x2000 <= address < 0x3F00 ==> 0x2000 <= ppu.cell(address) < 0x2800 && ppu.cell(address)
            == 0x2000 + vram_index(ppu.mapper.mirroring(), 0x2000 + address % 0x1000),
        0x3F00 <= address ==> 0x2800 <= ppu.cell(address) < 0x2820 && ppu.cell(address) == 0x2800
            + palette_index(address),
{
}

/// A byte written through the data port at `address` is read back through
/// the data port at every address that shares its place.
pub proof fn lemma_data_port_round_trip(ppu: PPUView, address: u16, byte: u8, other: u16)
    requires
        ppu.wf(),
        address % 0x4000 >= 0x2000,
        ppu.cell(other as int % 0x4000) == ppu.cell(address as int % 0x4000),
    ensures
        ppu.pointed(address).after_write(0x2007, byte).pointed(other).read_value(0x2007) == byte,
{
    lemma_pointed(ppu, address);
    let aimed = ppu.pointed(address);
    lemma_data_port(aimed, byte);
    let stored = aimed.after_write(0x2007, byte);
    lemma_pointed(stored, other);
    let again = stored.pointed(other);
    assert(again.read_value(0x2007) == again.mem_byte(other as int % 0x4000));
    assert(again.mem_byte(other as int % 0x4000) == stored.mem_byte(other as int % 0x4000));
    lemma_cells(ppu, other as int % 0x4000);
    lemma_cells(ppu, address as int % 0x4000);
    assert(aimed.cell(other as int % 0x4000) == ppu.cell(other as int % 0x4000));
    assert(aimed.cell(aimed.data_address()) == ppu.cell(address as int % 0x4000));
}

/// The 32 entries of palette memory repeat through `0x3F00..=0x3FFF`, and
/// entries `0x10`, `0x14`, `0x18` and `0x1C` are entries `0x00`, `0x04`,
/// `0x08` and `0x0C`: so what is stored at `0x3F00` is found at `0x3F10`,
/// `0x3F20` and so on up to `0x3FF0`.
pub proof fn lemma_palette_mirror(ppu: PPUView, address: u16, mirror: u16)
    requires
        0x3F00 <= address <= 0x3FFF,
        0x3F00 <= mirror <= 0x3FFF,
        mirror % 0x20 == address % 0x20 || (address % 4 == 0 && mirror % 0x10 == address % 0x10),
    ensures
        ppu.cell(mirror as int) == ppu.cell(address as int),
{
    let a = address % 0x20;
    let m = mirror % 0x20;
    assert(a < 0x20 && m < 0x20);
    assert(a % 4 == address % 4 && a % 0x10 == address % 0x10) by (bit_vector)
        requires
            a == address % 0x20,
    ;
    assert(m % 4 == mirror % 4 && m % 0x10 == mirror % 0x10) by (bit_vector)
        requires
            m == mirror % 0x20,
    ;
    assert((if m >= 0x10 && m % 4 == 0 {
        m - 0x10
    } else {
        m as int
    }) == (if a >= 0x10 && a % 4 == 0 {
        a - 0x10
    } else {
        a as int
    })) by (bit_vector)
        requires
            a < 0x20,
            m < 0x20,
            m == a || (a % 4 == 0 && m % 0x10 == a % 0x10),
    ;
}

/// A byte written through the data port at `0x3F00` is read back at
/// `0x3F00 + 0x10 * k` for every `k` from 0 to 15.
pub proof fn lemma_backdrop_mirrors(ppu: PPUView, byte: u8, k: u16)
    requires
        ppu.wf(),
        k < 16,
    ensures
        ppu.pointed(0x3F00).after_write(0x2007, byte).pointed(
            (0x3F00 + 0x10 * k) as u16,
        ).read_value(0x2007) == byte,
{
    let mirror = (0x3F00 + 0x10 * k) as u16;
    assert(mirror % 0x10 == 0 && 0x3F00u16 % 0x10 == 0 && 0x3F00u16 % 4 == 0) by (bit_vector)
        requires
            mirror == 0x3F00 + 0x10 * k,
            k < 16,
    ;
    lemma_palette_mirror(ppu, 0x3F00, mirror);
    lemma_data_port_round_trip(ppu, 0x3F00, byte, mirror);
}

/// The nametables repeat from `0x3000` up to `0x3EFF`.
pub proof fn lemma_nametable_repeat(ppu: PPUView, address: int)
    requires
        0x2000 <= address < 0x2F00,
    ensures
        ppu.cell(address + 0x1000) == ppu.cell(address),
{
}

/// With horizontal mirroring a nametable byte is shared by the tables at
/// `0x2000` and `0x2400`, and by those at `0x2800` and `0x2C00`; with
/// vertical mirroring by those at `0x2000` and `0x2800`, and by those at
/// `0x2400` and `0x2C00`. The two physical tables do not overlap.
pub proof fn lemma_nametable_mirror(mirroring: Mirroring, address: int)
    requires
        0x2000 <= address <= 0x2FFF,
    ensures
        0 <= vram_index(mirroring, address) < 0x800,
        mirroring == Mirroring::Horizontal ==> vram_index(mirroring, address) == vram_index(
            mirroring,
            if (address / 0x400) % 2 == 0 {
                address + 0x400
            } else {
                address - 0x400
            },
        ),
        mirroring == Mirroring::Vertical ==> vram_index(mirroring, address) == vram_index(
            mirroring,
            if address < 0x2800 {
                address + 0x800
            } else {
                address - 0x800
            },
        ),
        mirroring == Mirroring::Horizontal ==> vram_index(mirroring, address) != vram_index(
            mirroring,
            if address < 0x2800 {
                address + 0x800
            } else {
                address - 0x800
            },
        ),
        mirroring == Mirroring::Vertical ==> vram_index(mirroring, address) != vram_index(
            mirroring,
            if (address / 0x400) % 2 == 0 {
                address + 0x400
            } else {
                address - 0x400
            },
        ),
{
}

/// The dot at position 1 of scanline 241 sets the vblank flag; the read of
/// the status register that follows returns it in bit 7 and clears it, so
/// the read after that returns bit 7 clear.
pub proof fn lemma_status_read_clears_vblank(ppu: PPUView)
    requires
        ppu.wf(),
        ppu.scan_line == 241,
        ppu.cycles == 1,
    ensures
        ppu.stepped().status.vblank,
        ppu.stepped().read_value(0x2002) & 0x80 == 0x80,
        ppu.stepped().after_read(0x2002).read_value(0x2002) & 0x80 == 0,
{
    let entered = ppu.stepped();
    lemma_step_flags(ppu);
    entered.status.lemma_as_byte_bits();
    let first = entered.status.as_byte();
    assert(first & 0x80 != 0 ==> first & 0x80 == 0x80) by (bit_vector);
    entered.after_read(0x2002).status.lemma_as_byte_bits();
}

/// Whatever the flags, a read of the status register returns them in bits
/// 7, 6 and 5, and the read after it returns bit 7 clear and bits 6 and 5 as
/// before.
pub proof fn lemma_status_reads(ppu: PPUView)
    ensures
        (ppu.read_value(0x2002) & 0x80 != 0) == ppu.status.vblank,
        (ppu.read_value(0x2002) & 0x40 != 0) == ppu.status.sprite_zero_hit,
        (ppu.read_value(0x2002) & 0x20 != 0) == ppu.status.sprite_overflow,
        ppu.after_read(0x2002).read_value(0x2002) & 0x80 == 0,
        (ppu.after_read(0x2002).read_value(0x2002) & 0x40 != 0) == ppu.status.sprite_zero_hit,
        (ppu.after_read(0x2002).read_value(0x2002) & 0x20 != 0) == ppu.status.sprite_overflow,
{
    ppu.status.lemma_as_byte_bits();
    ppu.after_read(0x2002).status.lemma_as_byte_bits();
}

/// A read of the status register resets the write latch that the scroll and
/// address registers share: whatever was written before, the next write to
/// the scroll register sets the horizontal position, and the next write to the
/// address register sets the high byte of the pointer.
pub proof fn lemma_status_read_resets_latch(ppu: PPUView, byte: u8)
    requires
        ppu.wf(),
    ensures
        ppu.after_read(0x2002).scroll.next == ScrollNext::X,
        !ppu.after_read(0x2002).address.is_stored_first,
        ppu.after_read(0x2002).wf(),
        ppu.after_read(0x2002).after_write(0x2005, byte).scroll.x == byte,
        ppu.after_read(0x2002).after_write(0x2005, byte).scroll.y == ppu.scroll.y,
        ppu.after_read(0x2002).after_write(0x2006, byte).address.addr == byte * 0x100,
{
}

/// The scroll and address registers share one write latch: a write to
/// either makes the next write to either the second of a pair, and the one
/// after it the first again.
pub proof fn lemma_shared_latch(ppu: PPUView, first: u8, second: u8)
    requires
        ppu.wf(),
        !ppu.address.is_stored_first,
    ensures
        ppu.after_write(0x2005, first).after_write(0x2006, second).address.addr == (
        ppu.address.addr / 0x100) * 0x100 + second,
        ppu.after_write(0x2006, first).after_write(0x2005, second).scroll.y == second,
        ppu.after_write(0x2006, first).after_write(0x2005, second).scroll.x == ppu.scroll.x,
        ppu.after_write(0x2005, first).after_write(0x2005, second).wf(),
        !ppu.after_write(0x2005, first).after_write(0x2005, second).address.is_stored_first,
        !ppu.after_write(0x2006, first).after_write(0x2006, second).address.is_stored_first,
{
}

/// A visible dot sets the sprite-zero hit exactly when the flag is clear,
/// background and sprites are both switched on, sprite zero and the
/// background are both opaque at the dot's column, the column is not 255, and
/// the column is at least 8 unless neither layer is clipped on the left.
/// When any one of these fails the flag stays as it was, and a flag that is
/// set stays set.
pub proof fn lemma_zero_hit(ppu: PPUView)
    requires
        ppu.wf(),
        ppu.visible(),
    ensures
        ({
            let x = ppu.cycles - 1;
            let hit = ppu.rendered().status.sprite_zero_hit;
            let was = ppu.status.sprite_zero_hit;
            &&& was ==> hit
            &&& !(ppu.mask.background && ppu.mask.sprite) ==> hit == was
            &&& ppu.zero_buffer[x] == 0 ==> hit == was
            &&& ppu.background_pattern(x, ppu.scan_line as int) == 0 ==> hit == was
            &&& x == 255 ==> hit == was
            &&& x < 8 && !(ppu.mask.background_left_column && ppu.mask.sprite_left_column) ==> hit
                == was
            &&& (!was && ppu.mask.background && ppu.mask.sprite && ppu.zero_buffer[x] != 0
                && ppu.background_pattern(x, ppu.scan_line as int) != 0 && x != 255 && (x >= 8 || (
            ppu.mask.background_left_column && ppu.mask.sprite_left_column))) ==> hit
        }),
        ppu.rendered() == (PPUView {
            status: Status {
                sprite_zero_hit: ppu.rendered().status.sprite_zero_hit,
                ..ppu.status
            },
            ..ppu
        }),
{
    let x = ppu.cycles - 1;
    let y = ppu.scan_line as int;
    lemma_background_index(ppu, x, y);
}

/// The background's index into palette memory is below 16, and 0 exactly
/// where the background's pattern value is 0.
pub proof fn lemma_background_index(ppu: PPUView, x: int, y: int)
    ensures
        ppu.background_index(x, y) < 0x10,
        (ppu.background_index(x, y) == 0) == (ppu.background_pattern(x, y) == 0),
{
    let row = ppu.background_table() + ppu.background_tile(x, y) * 16 + ppu.plane_y(y) % 8;
    lemma_pattern_value_bound(ppu.chr(row), ppu.chr(row + 8), (7 - ppu.plane_x(x) % 8) as u8);
    let px = ppu.plane_x(x) % 256;
    let py = ppu.plane_y(y) % 240;
    lemma_attribute_palette_bound(
        ppu.nametable_byte(ppu.background_base(x, y) + 0x3C0 + px / 32 + (py / 32) * 8),
        ((py / 16) % 2) * 2 + (px / 16) % 2,
    );
}

/// Once set, the sprite-zero hit stays set through every dot but dot 1 of
/// scanline 261, which clears it; so a frame sets it at most once.
pub proof fn lemma_zero_hit_kept(ppu: PPUView)
    requires
        ppu.status.sprite_zero_hit,
    ensures
        ppu.stepped().status.sprite_zero_hit == !(ppu.cycles == 1 && ppu.scan_line == 261),
{
    lemma_step_flags(ppu);
}

/// One dot leaves the memories, sprite memory and its pointer, the transfer
/// engine and the registers written by the processor as they were: it
/// changes only the flags, the secondary sprite memory, the sprite lines and
/// the position in the frame.
pub proof fn lemma_step_setup(ppu: PPUView)
    ensures
        ppu.same_setup(ppu.stepped()),
{
    let a = ppu.rendered();
    assert(ppu.same_setup(a));
    let b = a.evaluated();
    assert(a.same_setup(b));
    let c = b.status_updated();
    assert(b.same_setup(c));
    assert(c.same_setup(c.ticked()));
}

/// Any number of dots leaves them so too.
pub proof fn lemma_steps_setup(ppu: PPUView, n: nat)
    ensures
        ppu.same_setup(ppu.stepped_n(n)),
    decreases n,
{
    if n > 0 {
        lemma_steps_setup(ppu, (n - 1) as nat);
        lemma_step_setup(ppu.stepped_n((n - 1) as nat));
    }
}

/// What one dot does to the flags: dot 1 of scanline 241 sets vblank, dot 1
/// of scanline 261 clears all three, and no other dot clears any.
pub proof fn lemma_step_flags(ppu: PPUView)
    ensures
        ppu.stepped().status.vblank == ((ppu.status.vblank || (ppu.cycles == 1 && ppu.scan_line
            == 241)) && !(ppu.cycles == 1 && ppu.scan_line == 261)),
        ppu.status.sprite_zero_hit ==> ppu.stepped().status.sprite_zero_hit == !(ppu.cycles == 1
            && ppu.scan_line == 261),
        ppu.status.sprite_overflow ==> ppu.stepped().status.sprite_overflow == !(ppu.cycles == 1
            && ppu.scan_line == 261),
        ppu.cycles == 1 && ppu.scan_line == 261 ==> ppu.stepped().status == (Status {
            vblank: false,
            sprite_zero_hit: false,
            sprite_overflow: false,
        }),
{
    let a = ppu.rendered();
    assert(a.cycles == ppu.cycles && a.scan_line == ppu.scan_line);
    assert(a.status.vblank == ppu.status.vblank);
    assert(a.status.sprite_overflow == ppu.status.sprite_overflow);
    assert(ppu.status.sprite_zero_hit ==> a.status.sprite_zero_hit);
    let b = a.evaluated();
    assert(b.cycles == ppu.cycles && b.scan_line == ppu.scan_line);
    assert(b.status.vblank == a.status.vblank);
    assert(b.status.sprite_zero_hit == a.status.sprite_zero_hit);
    assert(a.status.sprite_overflow ==> b.status.sprite_overflow);
    let c = b.status_updated();
    assert(c.ticked().status == c.status);
}

/// The position in the frame moves on by one dot: 341 dots to a scanline,
/// 262 scanlines to a frame, and then it starts over.
pub proof fn lemma_step_position(ppu: PPUView)
    requires
        ppu.cycles <= 340,
        ppu.scan_line <= 261,
    ensures
        ppu.stepped().cycles + 341 * ppu.stepped().scan_line == (ppu.cycles + 341 * ppu.scan_line
            + 1) % 89342,
        ppu.stepped().cycles <= 340,
        ppu.stepped().scan_line <= 261,
{
    let a = ppu.rendered();
    assert(a.cycles == ppu.cycles && a.scan_line == ppu.scan_line);
    let b = a.evaluated();
    assert(b.cycles == ppu.cycles && b.scan_line == ppu.scan_line);
    let c = b.status_updated();
    assert(c.cycles == ppu.cycles && c.scan_line == ppu.scan_line);
}


/// The sprite that a well-formed sprite memory holds at `i` is well formed.
pub proof fn lemma_sprite_wf(sprites: Seq<Sprite>, i: int)
    requires
        sprites_wf(sprites),
        0 <= i < sprites.len(),
    ensures
        sprites[i].attribute.wf(),
{
    reveal(sprites_wf);
}

/// Storing a byte in a well-formed sprite memory leaves it well formed and
/// as long as it was.
pub proof fn lemma_oam_with_byte_wf(sprites: Seq<Sprite>, address: int, byte: u8)
    requires
        sprites_wf(sprites),
        0 <= address < 4 * sprites.len(),
    ensures
        sprites_wf(oam_with_byte(sprites, address, byte)),
        oam_with_byte(sprites, address, byte).len() == sprites.len(),
{
    reveal(sprites_wf);
    SpriteAttribute::lemma_round_trip(byte);
}

/// A read of a register leaves a well-formed unit well formed.
pub proof fn lemma_after_read_wf(ppu: PPUView, address: int)
    requires
        ppu.wf(),
    ensures
        ppu.after_read(address).wf(),
{
}

/// A write to a register leaves a well-formed unit well formed.
pub proof fn lemma_after_write_wf(ppu: PPUView, address: int, byte: u8)
    requires
        ppu.wf(),
    ensures
        ppu.after_write(address, byte).wf(),
{
    if address == 0x2000 {
        assert(byte & 0b0000_0011 < 4) by (bit_vector);
    } else if address == 0x2004 {
        lemma_oam_with_byte_wf(ppu.oam, ppu.oam_address.addr as int, byte);
    } else if address == 0x2007 {
        lemma_data_port(ppu, byte);
    }
}

/// A byte moved by the transfer engine leaves a well-formed unit well
/// formed, as long as the engine has a byte to go.
pub proof fn lemma_after_dma_write_wf(ppu: PPUView, byte: u8)
    requires
        ppu.wf(),
        ppu.oam_dma.remains >= 1,
    ensures
        ppu.after_dma_write(byte).wf(),
{
    lemma_oam_with_byte_wf(
        ppu.oam,
        (0x100 - ppu.oam_dma.remains + ppu.oam_address.addr) % 0x100,
        byte,
    );
}

/// A sprite's pattern values have two bits.
pub proof fn lemma_sprite_pixel_bound(ppu: PPUView, i: int, x: int)
    ensures
        ppu.sprite_pixel(i, x) < 4,
{
    let s = ppu.oam[i];
    let row = ppu.scan_line - s.y;
    let column = x - s.x;
    let bit = (if s.attribute.hflip {
        column
    } else {
        7 - column
    }) as u8;
    if ppu.control.sprites_size {
        let r = if s.attribute.vflip {
            15 - row
        } else {
            row
        };
        let at = (s.tile_number % 2) * 0x1000 + ((s.tile_number - s.tile_number % 2) + r / 8) * 16
            + r % 8;
        lemma_pattern_value_bound(ppu.chr(at), ppu.chr(at + 8), bit);
    } else {
        let r = if s.attribute.vflip {
            7 - row
        } else {
            row
        };
        let base: int = if ppu.control.sprites_pattern_table {
            0x1000
        } else {
            0
        };
        let at = base + s.tile_number * 16 + r;
        lemma_pattern_value_bound(ppu.chr(at), ppu.chr(at + 8), bit);
    }
}

/// Every entry of the line of sprite pixels is an index into the sprite
/// half of palette memory, or 0.
pub proof fn lemma_line_index_bound(ppu: PPUView, n: int, x: int)
    requires
        sprites_wf(ppu.oam),
        n <= ppu.oam.len(),
    ensures
        ppu.line_index(n, x) == 0 || 0x10 < ppu.line_index(n, x) < 0x20,
    decreases n,
{
    if n > 0 {
        lemma_line_index_bound(ppu, n - 1, x);
        lemma_sprite_pixel_bound(ppu, n - 1, x);
        lemma_sprite_wf(ppu.oam, n - 1);
    }
}

/// No more sprites are in range among the first `n` than there are.
pub proof fn lemma_in_range_count_bound(ppu: PPUView, n: int)
    ensures
        0 <= ppu.in_range_count(n),
        n >= 0 ==> ppu.in_range_count(n) <= n,
    decreases n,
{
    if n > 0 {
        lemma_in_range_count_bound(ppu, n - 1);
    }
}

/// The secondary sprite memory stays well formed and eight sprites long
/// while it is filled.
pub proof fn lemma_secondary_filled_wf(ppu: PPUView, n: int)
    requires
        sprites_wf(ppu.oam),
        sprites_wf(ppu.secondary_oam),
        ppu.secondary_oam.len() == 8,
        n <= ppu.oam.len(),
    ensures
        sprites_wf(ppu.secondary_filled(n)),
        ppu.secondary_filled(n).len() == 8,
    decreases n,
{
    if n > 0 {
        lemma_secondary_filled_wf(ppu, n - 1);
        lemma_in_range_count_bound(ppu, n - 1);
        lemma_sprite_wf(ppu.oam, n - 1);
        reveal(sprites_wf);
    }
}

/// Sprite evaluation leaves a well-formed unit well formed.
pub proof fn lemma_evaluated_wf(ppu: PPUView)
    requires
        ppu.wf(),
    ensures
        ppu.evaluated().wf(),
{
    if ppu.scan_line < 240 {
        if ppu.cycles == 0 {
            SpriteAttribute::lemma_round_trip(0xFF);
            assert(sprites_wf(Seq::new(8, |i: int| Sprite::filled(0xFF)))) by {
                reveal(sprites_wf);
            }
        } else if ppu.cycles == 64 {
            lemma_secondary_filled_wf(ppu, 64);
            let line = Seq::new(256, |x: int| ppu.line_index(64, x));
            assert(line_wf(line)) by {
                reveal(line_wf);
                assert forall|x: int| 0 <= x < 256 implies #[trigger] line[x] < 0x20 by {
                    lemma_line_index_bound(ppu, 64, x);
                }
            }
        }
    }
}

/// One dot leaves a well-formed unit well formed.
pub proof fn lemma_stepped_wf(ppu: PPUView)
    requires
        ppu.wf(),
    ensures
        ppu.stepped().wf(),
{
    let a = ppu.rendered();
    assert(a.wf());
    lemma_evaluated_wf(a);
    let b = a.evaluated();
    let c = b.status_updated();
    assert(c.wf());
    assert(c.ticked().wf());
}

/// Any number of dots leaves a well-formed unit well formed.
pub proof fn lemma_stepped_n_wf(ppu: PPUView, n: nat)
    requires
        ppu.wf(),
    ensures
        ppu.stepped_n(n).wf(),
    decreases n,
{
    if n > 0 {
        lemma_stepped_n_wf(ppu, (n - 1) as nat);
        lemma_stepped_wf(ppu.stepped_n((n - 1) as nat));
    }
}

} // verus!
