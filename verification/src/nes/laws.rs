//! What holds of the console over many cycles: sprite-memory transfers run
//! to their end, interrupts are reported on time, well-formedness is
//! kept.

use crate::bus::{lemma_after_read_wf, BusView};
use crate::nes::DOTS_PER_CYCLE;
use crate::oam::{lemma_oam_write_then_read, oam_byte, OAMDMAStatus, OAMDMA};
use crate::ppu::laws::{
    lemma_after_dma_write_wf, lemma_step_position, lemma_step_setup, lemma_stepped_n_wf,
    lemma_steps_setup,
};
use vstd::prelude::*;

verus! {

impl BusView {
    /// The bus after `n` cycles in which the processor did nothing, the
    /// first of them cycle `cycle`.
    pub open spec fn after_idle_cycles(self, cycle: int, n: nat) -> BusView
        decreases n,
    {
        if n == 0 {
            self
        } else {
            self.after_idle_cycles(cycle, (n - 1) as nat).after_cycle(cycle + n - 1)
        }
    }

    /// Whether a sprite-memory transfer from `source` has just started.
    pub open spec fn dma_fresh(&self, source: int) -> bool {
        &&& 0 <= source
        &&& source + 0x100 <= 0x10000
        &&& self.ppu.oam_dma == (OAMDMA {
            status: OAMDMAStatus::Running(source as usize),
            current_addr: source as usize,
            remains: 0x100,
        })
    }
}

/// The transfer engine's part of a cycle leaves a well-formed bus well
/// formed, and the picture unit's position in the frame and its control
/// register as they were.
pub proof fn lemma_after_dma_transfer(bus: BusView)
    requires
        bus.wf(),
    ensures
        bus.after_dma_transfer().wf(),
        bus.after_dma_transfer().ppu.cycles == bus.ppu.cycles,
        bus.after_dma_transfer().ppu.scan_line == bus.ppu.scan_line,
        bus.after_dma_transfer().ppu.control == bus.ppu.control,
{
    if let OAMDMAStatus::Running(source) = bus.ppu.oam_dma.status {
        lemma_after_read_wf(bus, source as int);
        lemma_read_keeps_sprites(bus, source as int);
        lemma_after_dma_write_wf(bus.after_read(source as int).ppu, bus.read_value(source as int));
    }
}

/// Everything in a cycle that follows the processor's turn leaves a
/// well-formed bus well formed.
pub proof fn lemma_after_cycle_wf(bus: BusView, cycle: int)
    requires
        bus.wf(),
    ensures
        bus.after_cycle(cycle).wf(),
{
    reveal(BusView::after_cycle);
    lemma_after_dma_transfer(bus);
    lemma_stepped_n_wf(bus.after_dma_transfer().ppu, DOTS_PER_CYCLE as nat);
}

/// Any number of cycles in which the processor does nothing leaves a
/// well-formed bus well formed.
pub proof fn lemma_after_idle_cycles_wf(bus: BusView, cycle: int, n: nat)
    requires
        bus.wf(),
    ensures
        bus.after_idle_cycles(cycle, n).wf(),
    decreases n,
{
    if n > 0 {
        lemma_after_idle_cycles_wf(bus, cycle, (n - 1) as nat);
        lemma_after_cycle_wf(bus.after_idle_cycles(cycle, (n - 1) as nat), cycle + n - 1);
    }
}

/// A read over the bus leaves sprite memory, its pointer and the transfer
/// engine as they were, whatever the address.
pub proof fn lemma_read_keeps_sprites(bus: BusView, address: int)
    ensures
        bus.after_read(address).ppu.oam == bus.ppu.oam,
        bus.after_read(address).ppu.oam_address == bus.ppu.oam_address,
        bus.after_read(address).ppu.oam_dma == bus.ppu.oam_dma,
{
}

/// A write of `page` to `0x4014` leaves a transfer from `page * 256` waiting,
/// and takes the processor's turn away; the end of the next even cycle starts
/// it, and reports so.
pub proof fn lemma_dma_request(bus: BusView, page: u8, cycle: int)
    requires
        bus.wf(),
    ensures
        bus.after_write(0x4014, page).ppu.oam_dma.status is Waiting,
        !bus.after_write(0x4014, page).cpu_turn(),
        bus.after_write(0x4014, page).dma_starts(cycle) == (cycle % 2 == 0),
        cycle % 2 == 0 ==> bus.after_write(0x4014, page).after_dma_schedule(cycle).dma_fresh(
            page * 0x100,
        ),
{
}

/// The byte that the `i`-th cycle of a transfer from `source` moves: what a
/// read of `source + i` returns after `i` cycles in which the processor did
/// nothing, the first of them cycle `cycle`.
#[verifier::opaque]
pub open spec fn dma_byte(bus: BusView, source: int, cycle: int, i: int) -> u8 {
    bus.after_idle_cycles(cycle, i as nat).read_value(source + i)
}

/// One cycle of a running transfer, the processor doing nothing: the byte
/// read at the source goes to sprite memory at the sprite-memory pointer plus
/// the number of bytes already moved, modulo 256, and the engine moves on;
/// the pointer stays.
pub proof fn lemma_dma_cycle(bus: BusView, cycle: int)
    requires
        bus.ppu.oam_dma.status is Running,
    ensures
        bus.after_cycle(cycle).ppu.oam == crate::oam::oam_with_byte(
            bus.ppu.oam,
            (0x100 - bus.ppu.oam_dma.remains + bus.ppu.oam_address.addr) % 0x100,
            bus.read_value(bus.ppu.oam_dma.status->Running_0 as int),
        ),
        bus.after_cycle(cycle).ppu.oam_dma == bus.ppu.oam_dma.ticked(),
        bus.after_cycle(cycle).ppu.oam_address == bus.ppu.oam_address,
{
    reveal(BusView::after_cycle);
    let source = bus.ppu.oam_dma.status->Running_0 as int;
    let byte = bus.read_value(source);
    let read = bus.after_read(source);
    lemma_read_keeps_sprites(bus, source);
    let moved = BusView { ppu: read.ppu.after_dma_write(byte), ..read };
    assert(moved == bus.after_dma_transfer());
    let drawn = moved.after_dots(DOTS_PER_CYCLE as nat);
    lemma_steps_setup(moved.ppu, DOTS_PER_CYCLE as nat);
    assert(drawn.ppu.oam_dma == moved.ppu.oam_dma);
    assert(!(drawn.ppu.oam_dma.status is Waiting));
    assert(drawn.after_dma_schedule(cycle) == drawn);
}

/// How far a transfer has come `n` cycles after its start: it is `n` bytes
/// on, the processor has had no turn, the sprite-memory pointer has not
/// moved, and the bytes moved so far are in sprite memory.
pub proof fn lemma_dma_progress(bus: BusView, source: int, cycle: int, n: nat)
    requires
        bus.wf(),
        bus.dma_fresh(source),
        n <= 0x100,
    ensures
        bus.after_idle_cycles(cycle, n).ppu.oam_dma == (OAMDMA {
            status: if n < 0x100 {
                OAMDMAStatus::Running((source + n) as usize)
            } else {
                OAMDMAStatus::NotRunning
            },
            current_addr: (source + n) as usize,
            remains: (0x100 - n) as usize,
        }),
        bus.after_idle_cycles(cycle, n).ppu.oam_address == bus.ppu.oam_address,
        bus.after_idle_cycles(cycle, n).ppu.oam.len() == 64,
        forall|i: int|
            0 <= i < n ==> oam_byte(
                bus.after_idle_cycles(cycle, n).ppu.oam,
                (bus.ppu.oam_address.addr + i) % 0x100,
            ) == #[trigger] dma_byte(bus, source, cycle, i),
    decreases n,
{
    if n > 0 {
        let m = (n - 1) as nat;
        lemma_dma_progress(bus, source, cycle, m);
        let at = bus.after_idle_cycles(cycle, m);
        let next = bus.after_idle_cycles(cycle, n);
        assert(next == at.after_cycle(cycle + m));
        lemma_dma_cycle(at, cycle + m);
        let pointer = bus.ppu.oam_address.addr as int;
        let byte = at.read_value(source + m);
        assert(byte == dma_byte(bus, source, cycle, m as int)) by {
            reveal(dma_byte);
        }
        let place = (pointer + m) % 0x100;
        assert(next.ppu.oam == crate::oam::oam_with_byte(at.ppu.oam, place, byte));
        assert forall|i: int| 0 <= i < n implies oam_byte(next.ppu.oam, (pointer + i) % 0x100)
            == #[trigger] dma_byte(bus, source, cycle, i) by {
            lemma_oam_write_then_read(at.ppu.oam, place, byte, (pointer + i) % 0x100);
            if i < m {
                assert((pointer + i) % 0x100 != place);
            }
        }
    }
}

/// A transfer takes 256 cycles, in none of which the processor has a turn.
/// The byte moved in the `i`-th of them is the one that a read of the source
/// page at offset `i` returns in that cycle, and it ends up in sprite memory
/// at the sprite-memory pointer plus `i`, modulo 256; so all 256 bytes of
/// sprite memory come from the transfer. After the 256th cycle the processor
/// has its turn again.
pub proof fn lemma_dma_copies_page(bus: BusView, source: int, cycle: int)
    requires
        bus.wf(),
        bus.dma_fresh(source),
    ensures
        forall|n: nat| n < 0x100 ==> !(#[trigger] bus.after_idle_cycles(cycle, n)).cpu_turn(),
        bus.after_idle_cycles(cycle, 0x100).cpu_turn(),
        bus.after_idle_cycles(cycle, 0x100).ppu.oam_address == bus.ppu.oam_address,
        forall|i: int|
            0 <= i < 0x100 ==> oam_byte(
                bus.after_idle_cycles(cycle, 0x100).ppu.oam,
                (bus.ppu.oam_address.addr + i) % 0x100,
            ) == #[trigger] dma_byte(bus, source, cycle, i),
{
    lemma_dma_progress(bus, source, cycle, 0x100);
    assert forall|n: nat| n < 0x100 implies !(#[trigger] bus.after_idle_cycles(
        cycle,
        n,
    )).cpu_turn() by {
        lemma_dma_progress(bus, source, cycle, n);
    }
}

/// A cycle reports an interrupt exactly when the interrupt is enabled and
/// one of its three dots is dot 1 of scanline 241: the processor is told in
/// the very cycle in which vblank begins.
pub proof fn lemma_vblank_interrupt(bus: BusView, cycle: int)
    requires
        bus.wf(),
    ensures
        bus.cycle_outcome(cycle).nmi == (bus.ppu.control.nmi_vblank && ((bus.ppu.scan_line == 241
            && bus.ppu.cycles <= 1) || (bus.ppu.scan_line == 240 && bus.ppu.cycles == 340))),
{
    lemma_after_dma_transfer(bus);
    let first = bus.at_dots().ppu;
    assert(first.stepped_n(0) == first);
    let second = first.stepped();
    assert(first.stepped_n(1) == second);
    let third = second.stepped();
    assert(first.stepped_n(2) == third);
    lemma_step_position(first);
    lemma_step_position(second);
    lemma_step_setup(first);
    lemma_step_setup(second);
    assert(first.nmi_within(0) == false);
    assert(first.nmi_within(1) == first.raises_nmi());
    assert(first.nmi_within(2) == (first.raises_nmi() || second.raises_nmi()));
    assert(first.nmi_within(3) == (first.raises_nmi() || second.raises_nmi()
        || third.raises_nmi()));
}

} // verus!
