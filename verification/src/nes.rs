//! The console around its processor: what each processor cycle does once
//! the processor has had its turn.

use crate::bus::{Bus, BusView};
use crate::controller::{Button, ControllerInput};
use crate::oam::OAMDMAStatus;
use crate::ppu::view::{lemma_paints_next, Screen};
use crate::ppu::{power_on, PPU};
use crate::rom::{RomError, ROM};
use vstd::prelude::*;

pub mod laws;

verus! {

/// Processor cycles that make up one frame.
pub const CYCLES_PER_FRAME: usize = 29781;

/// Dots that the picture unit produces in one processor cycle.
pub const DOTS_PER_CYCLE: usize = 3;

/// Processor cycles for which a sprite-memory transfer stalls the processor
/// once it has started.
pub const DMA_STALL_CYCLES: usize = 512;

/// What the host has to do to the processor after one cycle of the console.
#[derive(Debug, Clone, Copy, PartialEq, Eq, Structural)]
pub struct CycleOutcome {
    /// The picture unit raised the interrupt line: the processor takes the
    /// interrupt and drops what is left of its current instruction.
    pub nmi: bool,
    /// A sprite-memory transfer has started: the processor is stalled for
    /// `DMA_STALL_CYCLES`.
    pub dma_started: bool,
}

impl BusView {
    /// Whether the processor may run an instruction in this cycle: it may
    /// not while a sprite-memory transfer is waiting or running.
    pub open spec fn cpu_turn(&self) -> bool {
        self.ppu.oam_dma.status is NotRunning
    }

    /// The bus after the transfer engine's part of a cycle: while a transfer
    /// runs, one byte is read at its source, as the processor would read it,
    /// and stored in sprite memory.
    pub open spec fn after_dma_transfer(self) -> BusView {
        match self.ppu.oam_dma.status {
            OAMDMAStatus::Running(source) => {
                let read = self.after_read(source as int);
                BusView { ppu: read.ppu.after_dma_write(self.read_value(source as int)), ..read }
            },
            _ => self,
        }
    }

    /// The bus after the picture unit has produced `n` dots.
    pub open spec fn after_dots(self, n: nat) -> BusView {
        BusView { ppu: self.ppu.stepped_n(n), ..self }
    }

    /// Whether a waiting transfer starts at the end of cycle `cycle`: it
    /// does on even cycles.
    pub open spec fn dma_starts(&self, cycle: int) -> bool {
        self.ppu.oam_dma.status is Waiting && cycle % 2 == 0
    }

    /// The bus once a waiting transfer has or has not started at the end of
    /// cycle `cycle`.
    pub open spec fn after_dma_schedule(self, cycle: int) -> BusView {
        if self.dma_starts(cycle) {
            BusView { ppu: self.ppu.after_dma_start(), ..self }
        } else {
            self
        }
    }

    /// The bus as the three dots of a cycle find it.
    pub open spec fn at_dots(self) -> BusView {
        self.after_dma_transfer()
    }

    /// The bus as the end of a cycle finds it, before a waiting transfer
    /// starts.
    pub open spec fn at_schedule(self) -> BusView {
        self.after_dma_transfer().after_dots(DOTS_PER_CYCLE as nat)
    }

    /// The bus after everything in cycle `cycle` that follows the
    /// processor's turn: the transfer engine, three dots, the start of a
    /// waiting transfer.
    #[verifier::opaque]
    pub open spec fn after_cycle(self, cycle: int) -> BusView {
        self.at_schedule().after_dma_schedule(cycle)
    }

    /// What cycle `cycle` asks of the processor.
    pub open spec fn cycle_outcome(self, cycle: int) -> CycleOutcome {
        CycleOutcome {
            nmi: self.at_dots().ppu.nmi_within(DOTS_PER_CYCLE as nat),
            dma_started: self.at_schedule().dma_starts(cycle),
        }
    }
}

/// The console but for its processor, which the host runs against `bus`.
#[derive(Debug)]
pub struct NES {
    pub bus: Bus,
}

impl View for NES {
    type V = BusView;

    open spec fn view(&self) -> BusView {
        self.bus@
    }
}

/// The bus of a console that has just been built around the cartridge with
/// program ROM `prg`, pattern ROM `chr` and board `mapper`.
pub open spec fn console_power_on(rom: ROM) -> BusView {
    BusView {
        wram: Seq::new(0x800, |i: int| 0u8),
        prg_rom: rom.prg@,
        ppu: power_on(rom.chr@, rom.mapper),
        mapper: rom.mapper,
        controller: ControllerInput { input: 0, latched: 0, shift: 0, strobe: false },
    }
}

impl NES {
    /// Whether the console is well formed.
    pub open spec fn wf(&self) -> bool {
        self@.wf()
    }

    /// Tests whether the console is well formed.
    pub fn is_well_formed(&self) -> (ok: bool)
        ensures
            ok == self.wf(),
    {
        self.bus.is_well_formed()
    }

    /// Builds the console around a cartridge, or says why the cartridge
    /// cannot run. The host resets its processor against `bus` afterwards.
    pub fn new(rom: ROM) -> (result: Result<NES, RomError>)
        ensures
            match rom.defect() {
                Some(e) => result matches Err(r) && r == e,
                None => result matches Ok(nes) && nes@ == console_power_on(rom) && nes.wf(),
            },
    {
        match rom.check() {
            Err(e) => Err(e),
            Ok(()) => {
                let ROM { prg, chr, mapper } = rom;
                let ppu = PPU::new(chr, mapper);
                let wram: [u8; 0x800] = [0;0x800];
                assert(wram@ =~= Seq::new(0x800, |i: int| 0u8));
                let bus = Bus::new(wram, ppu, prg, mapper, ControllerInput::new(0));
                Ok(NES { bus })
            },
        }
    }

    /// Whether the processor may run an instruction in this cycle.
    pub fn cpu_turn(&self) -> (turn: bool)
        ensures
            turn == self@.cpu_turn(),
    {
        match self.bus.ppu.oam_dma_status() {
            OAMDMAStatus::NotRunning => true,
            _ => false,
        }
    }

    /// The transfer engine's part of a cycle.
    pub fn transfer_dma_byte(&mut self)
        requires
            old(self).wf(),
        ensures
            final(self)@ == old(self)@.after_dma_transfer(),
            final(self).wf(),
    {
        match self.bus.ppu.oam_dma_status() {
            OAMDMAStatus::Running(address) => {
                self.move_dma_byte(address);
            },
            _ => {},
        }
    }

    /// Moves one byte of a running transfer from `address` to sprite memory.
    fn move_dma_byte(&mut self, address: usize)
        requires
            old(self).wf(),
            old(self)@.ppu.oam_dma.status == OAMDMAStatus::Running(address),
        ensures
            final(self)@ == old(self)@.after_dma_transfer(),
            final(self).wf(),
    {
        let byte: u8 = self.bus.read_byte(address);
        self.bus.ppu.oam_dma_write(byte);
    }

    /// The picture unit's part of a cycle: three dots onto `display`.
    /// Returns whether one of them raised the interrupt line.
    pub fn advance_ppu(&mut self, display: &mut Screen) -> (nmi: bool)
        requires
            old(self).wf(),
        ensures
            final(self)@ == old(self)@.after_dots(DOTS_PER_CYCLE as nat),
            old(self)@.ppu.paints_n(DOTS_PER_CYCLE as nat, *old(display), *final(display)),
            nmi == old(self)@.ppu.nmi_within(DOTS_PER_CYCLE as nat),
            final(self).wf(),
    {
        let ghost start = self@.ppu;
        let ghost before = *display;
        let mut nmi: bool = false;
        let mut dots: usize = 0;
        while dots < DOTS_PER_CYCLE
            invariant
                dots <= DOTS_PER_CYCLE,
                self.wf(),
                self@ == (BusView { ppu: start.stepped_n(dots as nat), ..old(self)@ }),
                start.paints_n(dots as nat, before, *display),
                nmi == start.nmi_within(dots as nat),
            decreases DOTS_PER_CYCLE - dots,
        {
            let ghost middle = *display;
            self.bus.ppu.step(display, &mut nmi);
            proof {
                lemma_paints_next(start, dots as nat, before, middle, *display);
            }
            dots += 1;
        }
        nmi
    }

    /// The end of cycle `cycle`: a waiting transfer starts on an even cycle.
    /// Returns whether one started.
    pub fn schedule_dma(&mut self, cycle: usize) -> (started: bool)
        requires
            old(self).wf(),
        ensures
            final(self)@ == old(self)@.after_dma_schedule(cycle as int),
            started == old(self)@.dma_starts(cycle as int),
            final(self).wf(),
    {
        match self.bus.ppu.oam_dma_status() {
            OAMDMAStatus::Waiting => {
                if cycle % 2 == 0 {
                    self.bus.ppu.start_oam_dma();
                    true
                } else {
                    false
                }
            },
            _ => false,
        }
    }

    /// Everything in cycle `cycle` that follows the processor's turn.
    pub fn run_cycle(&mut self, display: &mut Screen, cycle: usize) -> (outcome: CycleOutcome)
        requires
            old(self).wf(),
        ensures
            final(self)@ == old(self)@.after_cycle(cycle as int),
            old(self)@.at_dots().ppu.paints_n(
                DOTS_PER_CYCLE as nat,
                *old(display),
                *final(display),
            ),
            outcome == old(self)@.cycle_outcome(cycle as int),
            final(self).wf(),
    {
        proof {
            reveal(BusView::after_cycle);
        }
        self.transfer_dma_byte();
        let nmi: bool = self.advance_ppu(display);
        let dma_started: bool = self.schedule_dma(cycle);
        CycleOutcome { nmi, dma_started }
    }

    /// Replaces the buttons held down on the pad.
    pub fn update_input(&mut self, input: u8)
        ensures
            final(self)@ == (BusView {
                controller: ControllerInput { input, ..old(self)@.controller },
                ..old(self)@
            }),
    {
        self.bus.controller.update_input(input);
    }

    /// Holds a button of the pad down.
    pub fn press_button(&mut self, button: Button)
        ensures
            final(self)@ == (BusView {
                controller: ControllerInput {
                    input: old(self)@.controller.input | button.mask(),
                    ..old(self)@.controller
                },
                ..old(self)@
            }),
    {
        self.bus.controller.press_button(button);
    }

    /// Lets a button of the pad go.
    pub fn release_button(&mut self, button: Button)
        ensures
            final(self)@ == (BusView {
                controller: ControllerInput {
                    input: old(self)@.controller.input & !button.mask(),
                    ..old(self)@.controller
                },
                ..old(self)@
            }),
    {
        self.bus.controller.release_button(button);
    }
}

} // verus!
