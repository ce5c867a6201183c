//! Sprite memory, its port, and the engine that fills it from the
//! processor's side.

use vstd::prelude::*;

verus! {

/// The third byte of a sprite: palette in bits 0-1, priority in bit 5,
/// horizontal flip in bit 6, vertical flip in bit 7. Bits 2-4 drive nothing;
/// they are kept in `unused`, in place, so that a byte comes back as written.
#[derive(Debug, Clone, Copy)]
pub struct SpriteAttribute {
    pub vflip: bool,
    pub hflip: bool,
    pub priority: bool,
    pub palette: u8,
    pub unused: u8,
}

impl SpriteAttribute {
    /// The attribute that a written byte decodes to.
    pub open spec fn from_byte(byte: u8) -> SpriteAttribute {
        SpriteAttribute {
            vflip: byte & 0b1000_0000 != 0,
            hflip: byte & 0b0100_0000 != 0,
            priority: byte & 0b0010_0000 != 0,
            palette: byte & 0b0000_0011,
            unused: byte & 0b0001_1100,
        }
    }

    /// Each field holds only the bits that are its own.
    pub open spec fn wf(&self) -> bool {
        &&& self.palette < 4
        &&& self.unused & 0b1110_0011 == 0
    }

    /// The byte that the attribute encodes to.
    pub open spec fn as_byte(&self) -> u8 {
        (self.palette as int + self.unused as int + (if self.priority { 0x20int } else { 0 }) + (
        if self.hflip { 0x40int } else { 0 }) + (if self.vflip { 0x80int } else { 0 })) as u8
    }

    /// Tests whether the attribute is well formed.
    pub fn is_well_formed(&self) -> (ok: bool)
        ensures
            ok == self.wf(),
    {
        self.palette < 4 && self.unused & 0b1110_0011 == 0
    }

    /// Decodes a byte into the attribute.
    pub fn set_as_u8(&mut self, byte: u8)
        ensures
            *final(self) == SpriteAttribute::from_byte(byte),
            final(self).wf(),
    {
        assert(byte & 0b0000_0011 < 4) by (bit_vector);
        assert((byte & 0b0001_1100) & 0b1110_0011 == 0) by (bit_vector);
        self.palette = byte & 0b0000_0011;
        self.unused = byte & 0b0001_1100;
        self.priority = byte & 0b0010_0000 > 0;
        self.hflip = byte & 0b0100_0000 > 0;
        self.vflip = byte & 0b1000_0000 > 0;
    }

    /// Encodes the attribute as the byte it was decoded from.
    pub fn get_as_u8(&mut self) -> (byte: u8)
        requires
            old(self).wf(),
        ensures
            byte == old(self).as_byte(),
            *final(self) == *old(self),
    {
        let unused: u8 = self.unused;
        assert(unused & 0b1110_0011 == 0 ==> unused <= 0x1C) by (bit_vector);
        let mut byte: u8 = self.palette + unused;
        if self.priority {
            byte = byte + 0x20;
        }
        if self.hflip {
            byte = byte + 0x40;
        }
        if self.vflip {
            byte = byte + 0x80;
        }
        byte
    }

    /// Decoding a byte and encoding the result gives the byte back.
    pub proof fn lemma_round_trip(byte: u8)
        ensures
            SpriteAttribute::from_byte(byte).wf(),
            SpriteAttribute::from_byte(byte).as_byte() == byte,
    {
        assert(byte & 0b0000_0011 < 4) by (bit_vector);
        assert((byte & 0b0001_1100) & 0b1110_0011 == 0) by (bit_vector);
        assert((byte & 0b0000_0011) + (byte & 0b0001_1100) + (if byte & 0b0010_0000 != 0 {
            0x20int
        } else {
            0
        }) + (if byte & 0b0100_0000 != 0 {
            0x40int
        } else {
            0
        }) + (if byte & 0b1000_0000 != 0 {
            0x80int
        } else {
            0
        }) == byte) by (bit_vector);
    }
}

/// One entry of sprite memory.
#[derive(Debug, Clone, Copy)]
pub struct Sprite {
    pub y: u8,
    pub tile_number: u8,
    pub attribute: SpriteAttribute,
    pub x: u8,
}

impl Sprite {
    /// The sprite whose four bytes all equal `byte`.
    pub open spec fn filled(byte: u8) -> Sprite {
        Sprite {
            y: byte,
            tile_number: byte,
            attribute: SpriteAttribute::from_byte(byte),
            x: byte,
        }
    }

    /// Byte `field` (0 to 3) of the sprite as sprite memory holds it.
    pub open spec fn byte(&self, field: int) -> u8 {
        if field == 0 {
            self.y
        } else if field == 1 {
            self.tile_number
        } else if field == 2 {
            self.attribute.as_byte()
        } else {
            self.x
        }
    }

    /// The sprite with byte `field` (0 to 3) replaced.
    pub open spec fn with_byte(self, field: int, byte: u8) -> Sprite {
        if field == 0 {
            Sprite { y: byte, ..self }
        } else if field == 1 {
            Sprite { tile_number: byte, ..self }
        } else if field == 2 {
            Sprite { attribute: SpriteAttribute::from_byte(byte), ..self }
        } else {
            Sprite { x: byte, ..self }
        }
    }

    /// Whether the sprite has a row on `scan_line` when sprites are `height`
    /// rows tall.
    pub open spec fn covers(&self, scan_line: int, height: int) -> bool {
        self.y <= scan_line < self.y + height
    }

    /// Sets the row of the sprite's top.
    pub fn set_y(&mut self, y: u8)
        ensures
            *final(self) == old(self).with_byte(0, y),
    {
        self.y = y;
    }

    /// Sets the tile that the sprite shows.
    pub fn set_tile_number(&mut self, tile_number: u8)
        ensures
            *final(self) == old(self).with_byte(1, tile_number),
    {
        self.tile_number = tile_number;
    }

    /// Sets the attribute from its byte.
    pub fn set_attribute(&mut self, attribute: u8)
        ensures
            *final(self) == old(self).with_byte(2, attribute),
            final(self).attribute.wf(),
    {
        self.attribute.set_as_u8(attribute);
    }

    /// Sets the column of the sprite's left edge.
    pub fn set_x(&mut self, x: u8)
        ensures
            *final(self) == old(self).with_byte(3, x),
    {
        self.x = x;
    }
}

/// Byte `address` of the sprite memory `sprites`, four bytes to a sprite.
pub open spec fn oam_byte(sprites: Seq<Sprite>, address: int) -> u8 {
    sprites[address / 4].byte(address % 4)
}

/// The sprite memory `sprites` with byte `address` replaced.
pub open spec fn oam_with_byte(sprites: Seq<Sprite>, address: int, byte: u8) -> Seq<Sprite> {
    sprites.update(address / 4, sprites[address / 4].with_byte(address % 4, byte))
}

/// Every attribute in `sprites` is well formed.
#[verifier::opaque]
pub open spec fn sprites_wf(sprites: Seq<Sprite>) -> bool {
    forall|i: int| 0 <= i < sprites.len() ==> (#[trigger] sprites[i]).attribute.wf()
}

/// A sprite memory: 64 entries for the primary one, 8 for the secondary.
#[derive(Debug, Clone)]
pub struct OAM {
    pub inner: Vec<Sprite>,
}

impl View for OAM {
    type V = Seq<Sprite>;

    open spec fn view(&self) -> Seq<Sprite> {
        self.inner@
    }
}

impl OAM {
    /// Whether every sprite is well formed.
    pub open spec fn wf(&self) -> bool {
        sprites_wf(self@)
    }

    /// Tests whether the sprite memory is well formed.
    pub fn is_well_formed(&self) -> (ok: bool)
        ensures
            ok == self.wf(),
    {
        proof {
            reveal(sprites_wf);
        }
        let n: usize = self.inner.len();
        let mut i: usize = 0;
        while i < n
            invariant
                i <= n,
                n == self@.len(),
                forall|j: int| 0 <= j < i ==> (#[trigger] self@[j]).attribute.wf(),
            decreases n - i,
        {
            if !self.inner[i].attribute.is_well_formed() {
                proof {
                    reveal(sprites_wf);
                    assert(!self@[i as int].attribute.wf());
                }
                return false;
            }
            i += 1;
        }
        proof {
            reveal(sprites_wf);
        }
        true
    }

    /// A sprite memory of `capacity` sprites, all bytes 0.
    pub fn new(capacity: usize) -> (oam: Self)
        ensures
            oam@ == Seq::new(capacity as nat, |i: int| Sprite::filled(0)),
            oam.wf(),
    {
        let mut inner: Vec<Sprite> = Vec::new();
        let mut attribute = SpriteAttribute {
            vflip: false,
            hflip: false,
            priority: false,
            palette: 0,
            unused: 0,
        };
        attribute.set_as_u8(0);
        let blank = Sprite { y: 0, tile_number: 0, attribute, x: 0 };
        let mut i: usize = 0;
        while i < capacity
            invariant
                i <= capacity,
                inner@ == Seq::new(i as nat, |j: int| Sprite::filled(0)),
                blank == Sprite::filled(0),
                blank.attribute.wf(),
            decreases capacity - i,
        {
            inner.push(blank);
            i += 1;
            assert(inner@ =~= Seq::new(i as nat, |j: int| Sprite::filled(0)));
        }
        proof {
            reveal(sprites_wf);
        }
        OAM { inner }
    }

    /// Fills the sprite memory with `0xFF`.
    pub fn initialize(&mut self)
        ensures
            final(self)@ == Seq::new(old(self)@.len(), |i: int| Sprite::filled(0xFF)),
            final(self).wf(),
    {
        let n: usize = self.inner.len();
        let mut i: usize = 0;
        while i < n
            invariant
                i <= n,
                n == self.inner@.len(),
                forall|j: int| 0 <= j < i ==> self.inner@[j] == Sprite::filled(0xFF),
                forall|j: int| 0 <= j < i ==> (#[trigger] self.inner@[j]).attribute.wf(),
            decreases n - i,
        {
            let mut s: Sprite = self.inner[i];
            s.y = 0xFF;
            s.tile_number = 0xFF;
            s.attribute.set_as_u8(0xFF);
            s.x = 0xFF;
            self.inner.set(i, s);
            i += 1;
        }
        proof {
            reveal(sprites_wf);
        }
        assert(self.inner@ =~= Seq::new(n as nat, |i: int| Sprite::filled(0xFF)));
    }

    /// Stores `byte` at byte `address`.
    pub fn write_byte(&mut self, address: usize, byte: u8)
        requires
            address / 4 < old(self)@.len(),
            old(self).wf(),
        ensures
            final(self)@ == oam_with_byte(old(self)@, address as int, byte),
            final(self).wf(),
    {
        proof {
            reveal(sprites_wf);
        }
        let idx: usize = address / 4;
        let mut s: Sprite = self.inner[idx];
        match address % 4 {
            0 => {
                s.set_y(byte);
            },
            1 => {
                s.set_tile_number(byte);
            },
            2 => {
                s.set_attribute(byte);
            },
            _ => {
                s.set_x(byte);
            },
        }
        self.inner.set(idx, s);
    }

    /// The byte stored at byte `address`.
    pub fn read_byte(&mut self, address: usize) -> (byte: u8)
        requires
            address / 4 < old(self)@.len(),
            old(self).wf(),
        ensures
            byte == oam_byte(old(self)@, address as int),
            final(self)@ == old(self)@,
    {
        proof {
            reveal(sprites_wf);
        }
        let idx: usize = address / 4;
        let mut s: Sprite = self.inner[idx];
        match address % 4 {
            0 => s.y,
            1 => s.tile_number,
            2 => s.attribute.get_as_u8(),
            _ => s.x,
        }
    }

    /// The sprite at `index`.
    pub fn get(&self, index: usize) -> (sprite: &Sprite)
        requires
            index < self@.len(),
        ensures
            *sprite == self@[index as int],
    {
        &self.inner[index]
    }

    /// Replaces the sprite at `index`.
    pub fn set_sprite(&mut self, index: usize, sprite: Sprite)
        requires
            index < old(self)@.len(),
        ensures
            final(self)@ == old(self)@.update(index as int, sprite),
    {
        self.inner.set(index, sprite);
    }
}

/// Reading a byte of sprite memory just after writing it gives the byte
/// written, and every other byte reads as before.
pub proof fn lemma_oam_write_then_read(sprites: Seq<Sprite>, address: int, byte: u8, other: int)
    requires
        0 <= address < 4 * sprites.len(),
        0 <= other < 4 * sprites.len(),
    ensures
        oam_byte(oam_with_byte(sprites, address, byte), address) == byte,
        other != address ==> oam_byte(oam_with_byte(sprites, address, byte), other) == oam_byte(
            sprites,
            other,
        ),
{
    SpriteAttribute::lemma_round_trip(byte);
}

/// OAMDATA, the port at `0x2004` onto sprite memory.
#[derive(Default, Debug, Clone, Copy)]
pub struct OAMData {}

/// What a read through the port returns for the stored byte `byte` at
/// `address`: an attribute byte comes back with bits 2-4 clear.
pub open spec fn oam_port_byte(address: int, byte: u8) -> u8 {
    if address % 4 == 2 {
        byte & 0b1110_0011
    } else {
        byte
    }
}

impl OAMData {
    /// Stores `byte` at byte `address` of `oam`.
    pub fn write_byte(&mut self, address: usize, byte: u8, oam: &mut OAM)
        requires
            address / 4 < old(oam)@.len(),
            old(oam).wf(),
        ensures
            final(oam)@ == oam_with_byte(old(oam)@, address as int, byte),
            final(oam).wf(),
    {
        oam.write_byte(address, byte);
    }

    /// Reads byte `address` of `oam` as the processor sees it.
    pub fn read_byte(&mut self, address: usize, oam: &mut OAM) -> (byte: u8)
        requires
            address / 4 < old(oam)@.len(),
            old(oam).wf(),
        ensures
            byte == oam_port_byte(address as int, oam_byte(old(oam)@, address as int)),
            final(oam)@ == old(oam)@,
    {
        let stored: u8 = oam.read_byte(address);
        if address % 4 == 2 {
            stored & 0b1110_0011
        } else {
            stored
        }
    }
}

/// Progress of a sprite-memory transfer.
#[derive(Debug, Clone, Copy, PartialEq, Eq, Structural)]
pub enum OAMDMAStatus {
    NotRunning,
    Waiting,
    Running(usize),
}

impl Default for OAMDMAStatus {
    fn default() -> (status: Self)
        ensures
            status == OAMDMAStatus::NotRunning,
    {
        Self::NotRunning
    }
}

/// OAMDMA, the transfer engine started by a write to `0x4014`.
#[derive(Debug, Clone, Copy)]
pub struct OAMDMA {
    pub status: OAMDMAStatus,
    pub current_addr: usize,
    pub remains: usize,
}

impl OAMDMA {
    /// A transfer never has more than 256 bytes to go, its source stays within
    /// the 16-bit address space, and a running transfer has a byte to go.
    pub open spec fn wf(&self) -> bool {
        &&& self.remains <= 0x100
        &&& self.current_addr + self.remains <= 0x10000
        &&& self.status is Waiting ==> self.remains == 0x100
        &&& self.status matches OAMDMAStatus::Running(a) ==> a == self.current_addr
            && self.remains >= 1
    }

    /// The engine after a write of `byte`: a transfer of 256 bytes from page
    /// `byte` is waiting.
    pub open spec fn scheduled(byte: u8) -> OAMDMA {
        OAMDMA {
            status: OAMDMAStatus::Waiting,
            current_addr: (byte as usize * 0x100) as usize,
            remains: 0x100,
        }
    }

    /// The engine after one byte has been moved.
    pub open spec fn ticked(self) -> OAMDMA {
        OAMDMA {
            status: if self.remains == 1 {
                OAMDMAStatus::NotRunning
            } else {
                OAMDMAStatus::Running((self.current_addr + 1) as usize)
            },
            current_addr: (self.current_addr + 1) as usize,
            remains: (self.remains - 1) as usize,
        }
    }

    /// Tests whether the engine is well formed.
    pub fn is_well_formed(&self) -> (ok: bool)
        ensures
            ok == self.wf(),
    {
        self.remains <= 0x100 && self.current_addr <= 0x10000 - self.remains && match self.status {
            OAMDMAStatus::NotRunning => true,
            OAMDMAStatus::Waiting => self.remains == 0x100,
            OAMDMAStatus::Running(a) => a == self.current_addr && self.remains >= 1,
        }
    }

    /// Schedules a transfer of 256 bytes from page `byte`.
    pub fn write_byte(&mut self, byte: u8)
        ensures
            *final(self) == OAMDMA::scheduled(byte),
            final(self).wf(),
    {
        self.current_addr = (byte as usize) * 0x100;
        self.status = OAMDMAStatus::Waiting;
        self.remains = 0x100;
    }

    /// Starts the waiting transfer.
    pub fn start(&mut self)
        requires
            old(self).wf(),
            old(self).status is Waiting,
        ensures
            *final(self) == (OAMDMA {
                status: OAMDMAStatus::Running(old(self).current_addr),
                ..*old(self)
            }),
            final(self).wf(),
    {
        self.status = OAMDMAStatus::Running(self.current_addr);
    }

    /// Counts one byte as moved.
    pub fn tick(&mut self)
        requires
            old(self).wf(),
            old(self).remains >= 1,
        ensures
            *final(self) == old(self).ticked(),
            final(self).wf(),
    {
        self.current_addr += 1;
        self.remains -= 1;
        if self.remains == 0 {
            self.status = OAMDMAStatus::NotRunning;
        } else {
            self.status = OAMDMAStatus::Running(self.current_addr);
        }
    }
}

} // verus!
