//! The core of a console of the 8-bit era, with its behaviour stated and
//! proved: the cartridge and its board, the pad, the bus that the processor
//! sees, the picture unit with its sprite-memory transfer, and what each
//! processor cycle of the console does around the processor's own work. The
//! processor itself is the host's to bring.

pub mod bus;
pub mod color;
pub mod controller;
pub mod host;
pub mod mapper;
pub mod nes;
pub mod oam;
pub mod ppu;
pub mod registers;
pub mod rom;
