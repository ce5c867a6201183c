//! The bus: what a processor address leads to, for reads and for writes.

use crate::controller::ControllerInput;
use crate::mapper::Mapper;
use crate::ppu::view::PPUView;
use crate::ppu::PPU;
use vstd::prelude::*;

verus! {

/// What the processor sees on its address lines: work RAM, the picture
/// unit's registers, the pad, and program ROM behind the board.
#[derive(Debug)]
pub struct Bus {
    pub wram: [u8; 0x800],
    pub prg_rom: Vec<u8>,
    pub ppu: PPU,
    pub mapper: Mapper,
    pub controller: ControllerInput,
}

/// The bus as plain values.
pub struct BusView {
    pub wram: Seq<u8>,
    pub prg_rom: Seq<u8>,
    pub ppu: PPUView,
    pub mapper: Mapper,
    pub controller: ControllerInput,
}

impl View for Bus {
    type V = BusView;

    open spec fn view(&self) -> BusView {
        BusView {
            wram: self.wram@,
            prg_rom: self.prg_rom@,
            ppu: self.ppu@,
            mapper: self.mapper,
            controller: self.controller,
        }
    }
}

/// The register of the picture unit that a processor address in
/// `0x2000..=0x3FFF` selects: the eight registers repeat every 8 bytes.
pub open spec fn ppu_register(address: int) -> int {
    0x2000 + address % 8
}

impl BusView {
    /// Every part is well formed, and program ROM has the size that the
    /// board maps.
    pub open spec fn wf(&self) -> bool {
        &&& self.wram.len() == 0x800
        &&& self.ppu.wf()
        &&& self.mapper.wf()
        &&& self.prg_rom.len() == self.mapper.prg_len()
        &&& self.controller.wf()
    }

    /// The byte that a read of `address` returns.
    pub open spec fn read_value(&self, address: int) -> u8 {
        if 0 <= address < 0x2000 {
            self.wram[address % 0x800]
        } else if 0x2000 <= address < 0x4000 {
            self.ppu.read_value(ppu_register(address))
        } else if address == 0x4016 {
            self.controller.read_value()
        } else if 0x8000 <= address <= 0xFFFF {
            self.prg_rom[self.mapper.prg_offset(address)]
        } else {
            0
        }
    }

    /// The bus after a read of `address`: only a read of the picture unit or
    /// of the pad leaves a trace.
    pub open spec fn after_read(self, address: int) -> BusView {
        if 0x2000 <= address < 0x4000 {
            BusView { ppu: self.ppu.after_read(ppu_register(address)), ..self }
        } else if address == 0x4016 {
            BusView { controller: self.controller.after_read(), ..self }
        } else {
            self
        }
    }

    /// The bus after a write of `byte` to `address`.
    pub open spec fn after_write(self, address: int, byte: u8) -> BusView {
        if 0 <= address < 0x2000 {
            BusView { wram: self.wram.update(address % 0x800, byte), ..self }
        } else if 0x2000 <= address < 0x4000 {
            BusView { ppu: self.ppu.after_write(ppu_register(address), byte), ..self }
        } else if address == 0x4014 {
            BusView { ppu: self.ppu.after_write(0x4014, byte), ..self }
        } else if address == 0x4016 {
            BusView { controller: self.controller.after_write(byte), ..self }
        } else {
            self
        }
    }
}

impl Bus {
    /// Whether the bus is well formed.
    pub open spec fn wf(&self) -> bool {
        self@.wf()
    }

    /// Tests whether the bus is well formed.
    pub fn is_well_formed(&self) -> (ok: bool)
        ensures
            ok == self.wf(),
    {
        self.ppu.is_well_formed() && self.mapper.is_well_formed() && match self.mapper {
            Mapper::NRom(m) => self.prg_rom.len() == m.prg_units * 0x4000,
        } && self.controller.is_well_formed()
    }

    /// Puts a bus together from its parts.
    pub fn new(
        wram: [u8; 0x800],
        ppu: PPU,
        prg_rom: Vec<u8>,
        mapper: Mapper,
        controller: ControllerInput,
    ) -> (bus: Bus)
        ensures
            bus@ == (BusView {
                wram: wram@,
                prg_rom: prg_rom@,
                ppu: ppu@,
                mapper,
                controller,
            }),
    {
        Bus { wram, prg_rom, ppu, mapper, controller }
    }

    /// Clears work RAM.
    pub fn reset(&mut self)
        ensures
            final(self)@ == (BusView { wram: Seq::new(0x800, |i: int| 0u8), ..old(self)@ }),
    {
        self.wram = [0;0x800];
        assert(self@.wram =~= Seq::new(0x800, |i: int| 0u8));
    }

    /// Reads a register of the picture unit.
    fn read_ppu(&mut self, address: usize) -> (byte: u8)
        requires
            old(self).wf(),
            0x2000 <= address < 0x4000,
        ensures
            byte == old(self)@.read_value(address as int),
            final(self)@ == old(self)@.after_read(address as int),
            final(self).wf(),
    {
        self.ppu.read_byte(0x2000 + address % 8)
    }

    /// Reads the pad.
    fn read_controller(&mut self) -> (byte: u8)
        requires
            old(self).wf(),
        ensures
            byte == old(self)@.read_value(0x4016),
            final(self)@ == old(self)@.after_read(0x4016),
            final(self).wf(),
    {
        self.controller.read_byte()
    }

    /// Reads what needs no change of state: work RAM, program ROM, and 0
    /// where nothing is mapped.
    fn read_plain(&self, address: usize) -> (byte: u8)
        requires
            self.wf(),
            !(0x2000 <= address < 0x4000),
            address != 0x4016,
        ensures
            byte == self@.read_value(address as int),
    {
        if address < 0x2000 {
            self.wram[address % 0x800]
        } else if 0x8000 <= address && address <= 0xFFFF {
            let a: usize = self.mapper.mapping_address(address);
            self.prg_rom[a]
        } else {
            0
        }
    }

    /// Reads the byte at `address` as the processor does, with what the read
    /// sets off.
    pub fn read_byte(&mut self, address: usize) -> (byte: u8)
        requires
            old(self).wf(),
        ensures
            byte == old(self)@.read_value(address as int),
            final(self)@ == old(self)@.after_read(address as int),
            final(self).wf(),
    {
        if 0x2000 <= address && address < 0x4000 {
            self.read_ppu(address)
        } else if address == 0x4016 {
            self.read_controller()
        } else {
            self.read_plain(address)
        }
    }

    /// Returns what a read of `address` would return, and changes nothing.
    pub fn read_byte_without_effect(&mut self, address: usize) -> (byte: u8)
        requires
            old(self).wf(),
        ensures
            byte == old(self)@.read_value(address as int),
            final(self)@ == old(self)@,
    {
        if 0x2000 <= address && address < 0x4000 {
            self.ppu.read_byte_without_effect(0x2000 + address % 8)
        } else if address == 0x4016 {
            self.controller.read_byte_without_effect()
        } else {
            self.read_plain(address)
        }
    }

    /// Writes to work RAM.
    fn write_wram(&mut self, address: usize, byte: u8)
        requires
            old(self).wf(),
            address < 0x2000,
        ensures
            final(self)@ == old(self)@.after_write(address as int, byte),
            final(self).wf(),
    {
        self.wram[address % 0x800] = byte;
        assert(self@.wram =~= old(self)@.wram.update(address as int % 0x800, byte));
    }

    /// Writes to a register of the picture unit.
    fn write_ppu(&mut self, address: usize, byte: u8)
        requires
            old(self).wf(),
            0x2000 <= address < 0x4000 || address == 0x4014,
        ensures
            final(self)@ == old(self)@.after_write(address as int, byte),
            final(self).wf(),
    {
        let register: usize = if address == 0x4014 {
            0x4014
        } else {
            0x2000 + address % 8
        };
        self.ppu.write_byte(register, byte);
    }

    /// Writes to the pad.
    fn write_controller(&mut self, byte: u8)
        requires
            old(self).wf(),
        ensures
            final(self)@ == old(self)@.after_write(0x4016, byte),
            final(self).wf(),
    {
        self.controller.write_byte(byte);
    }

    /// Writes `byte` to `address` as the processor does.
    pub fn write_byte(&mut self, address: usize, byte: u8)
        requires
            old(self).wf(),
        ensures
            final(self)@ == old(self)@.after_write(address as int, byte),
            final(self).wf(),
    {
        if address < 0x2000 {
            self.write_wram(address, byte);
        } else if address < 0x4000 || address == 0x4014 {
            self.write_ppu(address, byte);
        } else if address == 0x4016 {
            self.write_controller(byte);
        }
    }
}

impl BusView {
    /// The bus after `n` reads of `address`.
    pub open spec fn after_reads(self, address: int, n: nat) -> BusView
        decreases n,
    {
        if n == 0 {
            self
        } else {
            self.after_reads(address, (n - 1) as nat).after_read(address)
        }
    }
}

/// A read leaves a well-formed bus well formed.
pub proof fn lemma_after_read_wf(bus: BusView, address: int)
    requires
        bus.wf(),
    ensures
        bus.after_read(address).wf(),
{
    if 0x2000 <= address < 0x4000 {
        crate::ppu::laws::lemma_after_read_wf(bus.ppu, ppu_register(address));
    }
}

/// A write leaves a well-formed bus well formed.
pub proof fn lemma_after_write_wf(bus: BusView, address: int, byte: u8)
    requires
        bus.wf(),
    ensures
        bus.after_write(address, byte).wf(),
{
    if 0x2000 <= address < 0x4000 {
        crate::ppu::laws::lemma_after_write_wf(bus.ppu, ppu_register(address), byte);
    } else if address == 0x4014 {
        crate::ppu::laws::lemma_after_write_wf(bus.ppu, 0x4014, byte);
    }
}

/// The picture unit's registers are seen at every eighth address from
/// `0x2000` up to `0x3FFF`: a read or a write there is one of the register.
pub proof fn lemma_register_mirror(bus: BusView, address: int, byte: u8)
    requires
        0x2000 <= address < 0x4000,
    ensures
        0x2000 <= ppu_register(address) <= 0x2007,
        bus.read_value(address) == bus.ppu.read_value(ppu_register(address)),
        bus.after_read(address) == (BusView {
            ppu: bus.ppu.after_read(ppu_register(address)),
            ..bus
        }),
        bus.after_write(address, byte) == (BusView {
            ppu: bus.ppu.after_write(ppu_register(address), byte),
            ..bus
        }),
        bus.read_value(address) == bus.read_value(ppu_register(address)),
        bus.after_write(address, byte) == bus.after_write(ppu_register(address), byte),
{
}

/// Reads of the pad's address touch nothing but the pad.
pub proof fn lemma_pad_reads(bus: BusView, n: nat)
    ensures
        bus.after_reads(0x4016, n) == (BusView {
            controller: bus.controller.after_reads(n),
            ..bus
        }),
    decreases n,
{
    if n > 0 {
        lemma_pad_reads(bus, (n - 1) as nat);
    }
}

/// After a write of 1 and then of 0 to `0x4016`, the `k`-th read of
/// `0x4016` that follows, for `k` from 0 to 7, returns bit `k` of the button
/// vector as it was at the second write.
pub proof fn lemma_pad_strobe_then_reads(bus: BusView, k: nat)
    requires
        bus.wf(),
        k < 8,
    ensures
        bus.after_write(0x4016, 1).after_write(0x4016, 0).after_reads(0x4016, k).read_value(0x4016)
            == (bus.controller.input >> (k as u8)) & 1,
{
    assert(1u8 & 1 == 1) by (bit_vector);
    assert(0u8 & 1 == 0) by (bit_vector);
    let armed = bus.after_write(0x4016, 1).after_write(0x4016, 0);
    assert(armed.controller == bus.controller.after_write(1).after_write(0));
    lemma_pad_reads(armed, k);
    crate::controller::lemma_strobe_then_reads(bus.controller, 1, 0, k);
}

/// A byte written to work RAM reads back at the address itself and at each
/// of its mirrors, 2 KiB apart, below `0x2000`.
pub proof fn lemma_wram_mirror(bus: BusView, address: int, byte: u8, mirror: int)
    requires
        bus.wf(),
        0 <= address < 0x2000,
        0 <= mirror < 0x2000,
        mirror % 0x800 == address % 0x800,
    ensures
        bus.after_write(address, byte).read_value(mirror) == byte,
        bus.after_write(address, byte).wf(),
{
}

/// A byte written to work RAM reads back at the address with bit 11
/// flipped.
pub proof fn lemma_wram_round_trip(bus: BusView, address: u16, byte: u8)
    requires
        bus.wf(),
        address < 0x2000,
    ensures
        bus.after_write(address as int, byte).read_value((address ^ 0x0800) as int) == byte,
{
    assert((address ^ 0x0800) < 0x2000 && (address ^ 0x0800) % 0x800 == address % 0x800)
        by (bit_vector)
        requires
            address < 0x2000,
    ;
    lemma_wram_mirror(bus, address as int, byte, (address ^ 0x0800) as int);
}

} // verus!
