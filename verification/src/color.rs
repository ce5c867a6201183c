//! The master palette: the colours that a byte of palette memory names.

use vstd::prelude::*;

verus! {

/// The 64 colours that the picture unit can emit, as red, green and blue.
pub const MASTER_PALETTE: [[u8; 3]; 64] = [
    [84, 84, 84],
    [0, 30, 116],
    [8, 16, 144],
    [48, 0, 136],
    [68, 0, 100],
    [92, 0, 48],
    [84, 4, 0],
    [60, 24, 0],
    [32, 42, 0],
    [8, 58, 0],
    [0, 64, 0],
    [0, 60, 0],
    [0, 50, 60],
    [0, 0, 0],
    [0, 0, 0],
    [0, 0, 0],
    [152, 150, 152],
    [8, 76, 196],
    [48, 50, 236],
    [92, 30, 228],
    [136, 20, 176],
    [160, 20, 100],
    [152, 34, 32],
    [120, 60, 0],
    [84, 90, 0],
    [40, 114, 0],
    [8, 124, 0],
    [0, 118, 40],
    [0, 102, 120],
    [0, 0, 0],
    [0, 0, 0],
    [0, 0, 0],
    [236, 238, 236],
    [76, 154, 236],
    [120, 124, 236],
    [176, 98, 236],
    [228, 84, 236],
    [236, 88, 180],
    [236, 106, 100],
    [212, 136, 32],
    [160, 170, 0],
    [116, 196, 0],
    [76, 208, 32],
    [56, 204, 108],
    [56, 180, 204],
    [60, 60, 60],
    [0, 0, 0],
    [0, 0, 0],
    [236, 238, 236],
    [168, 204, 236],
    [188, 188, 236],
    [212, 178, 236],
    [236, 174, 236],
    [236, 174, 212],
    [236, 180, 176],
    [228, 196, 144],
    [204, 210, 120],
    [180, 222, 120],
    [168, 226, 144],
    [152, 226, 180],
    [160, 214, 228],
    [160, 162, 160],
    [0, 0, 0],
    [0, 0, 0],
];

/// A colour as red, green and blue.
#[derive(Debug, Clone, Copy, PartialEq, Eq, Structural)]
pub struct Color(pub u8, pub u8, pub u8);

/// The colour that a byte of palette memory stands for: entry `byte & 0x3F`
/// of the master palette.
pub open spec fn master_color(byte: u8) -> Color {
    Color(
        MASTER_PALETTE@[(byte & 0x3F) as int]@[0],
        MASTER_PALETTE@[(byte & 0x3F) as int]@[1],
        MASTER_PALETTE@[(byte & 0x3F) as int]@[2],
    )
}

impl From<u8> for Color {
    fn from(byte: u8) -> (color: Color) {
        assert(byte & 0x3F < 64) by (bit_vector);
        let index: usize = (byte & 0x3F) as usize;
        let entry: [u8; 3] = MASTER_PALETTE[index];
        Color(entry[0], entry[1], entry[2])
    }
}

impl vstd::std_specs::convert::FromSpecImpl<u8> for Color {
    open spec fn obeys_from_spec() -> bool {
        true
    }

    open spec fn from_spec(byte: u8) -> Color {
        master_color(byte)
    }
}

} // verus!
