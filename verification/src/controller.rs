//! The pad and its shift register.

use vstd::prelude::*;

verus! {

/// The eight buttons of a pad, in the order in which they are read out.
#[derive(Debug, Clone, Copy, PartialEq, Eq, Structural)]
pub enum Button {
    A,
    B,
    Select,
    Start,
    Up,
    Down,
    Left,
    Right,
}

impl Button {
    /// The bit of the button vector that stands for the button.
    pub open spec fn mask(self) -> u8 {
        match self {
            Button::A => 0x01,
            Button::B => 0x02,
            Button::Select => 0x04,
            Button::Start => 0x08,
            Button::Up => 0x10,
            Button::Down => 0x20,
            Button::Left => 0x40,
            Button::Right => 0x80,
        }
    }

    /// Place of the button in the read-out order, 0 to 7.
    pub open spec fn index(self) -> u8 {
        match self {
            Button::A => 0,
            Button::B => 1,
            Button::Select => 2,
            Button::Start => 3,
            Button::Up => 4,
            Button::Down => 5,
            Button::Left => 6,
            Button::Right => 7,
        }
    }

    /// The bit of the button vector that stands for the button.
    fn bit(self) -> (mask: u8)
        ensures
            mask == self.mask(),
    {
        match self {
            Button::A => 0x01,
            Button::B => 0x02,
            Button::Select => 0x04,
            Button::Start => 0x08,
            Button::Up => 0x10,
            Button::Down => 0x20,
            Button::Left => 0x40,
            Button::Right => 0x80,
        }
    }
}

/// One pad behind its shift register. `input` is what the host reports as
/// held down; `latched` is the copy that the falling edge of the strobe took
/// and that the register shifts out.
#[derive(Debug, Clone, Copy)]
pub struct ControllerInput {
    pub input: u8,
    pub latched: u8,
    pub shift: usize,
    pub strobe: bool,
}

impl ControllerInput {
    /// The shift counter stays below 8, and at 0 while the strobe is high.
    pub open spec fn wf(&self) -> bool {
        &&& self.shift < 8
        &&& self.strobe ==> self.shift == 0
    }

    /// The bit that the next read returns: while the strobe is high the
    /// first button as it is now, else bit `shift` of the latched vector.
    pub open spec fn read_value(&self) -> u8 {
        if self.strobe {
            self.input & 1
        } else {
            (self.latched >> (self.shift as u8)) & 1
        }
    }

    /// The pad after a read: with the strobe low the counter moves on,
    /// modulo 8.
    pub open spec fn after_read(self) -> ControllerInput {
        if self.strobe {
            self
        } else {
            ControllerInput { shift: ((self.shift + 1) % 8) as usize, ..self }
        }
    }

    /// The pad after `n` reads.
    pub open spec fn after_reads(self, n: nat) -> ControllerInput
        decreases n,
    {
        if n == 0 {
            self
        } else {
            self.after_reads((n - 1) as nat).after_read()
        }
    }

    /// The pad after a write of `byte`: bit 0 set raises the strobe and
    /// resets the counter; bit 0 clear lowers the strobe, and if it was high
    /// latches the buttons as they are now.
    pub open spec fn after_write(self, byte: u8) -> ControllerInput {
        if byte & 1 == 1 {
            ControllerInput { shift: 0, strobe: true, ..self }
        } else if self.strobe {
            ControllerInput { latched: self.input, strobe: false, ..self }
        } else {
            self
        }
    }

    /// Tests whether the pad is well formed.
    pub fn is_well_formed(&self) -> (ok: bool)
        ensures
            ok == self.wf(),
    {
        self.shift < 8 && (!self.strobe || self.shift == 0)
    }

    /// A pad with the buttons `input` held down, its strobe low.
    pub fn new(input: u8) -> (pad: Self)
        ensures
            pad == (ControllerInput { input, latched: input, shift: 0, strobe: false }),
            pad.wf(),
    {
        Self { input, latched: input, shift: 0, strobe: false }
    }

    /// Replaces the buttons held down.
    pub fn update_input(&mut self, byte: u8)
        ensures
            *final(self) == (ControllerInput { input: byte, ..*old(self) }),
    {
        self.input = byte;
    }

    /// Holds a button down.
    pub fn press_button(&mut self, button: Button)
        ensures
            *final(self) == (ControllerInput {
                input: old(self).input | button.mask(),
                ..*old(self)
            }),
    {
        self.input = self.input | button.bit();
    }

    /// Lets a button go.
    pub fn release_button(&mut self, button: Button)
        ensures
            *final(self) == (ControllerInput {
                input: old(self).input & !button.mask(),
                ..*old(self)
            }),
    {
        self.input = self.input & !button.bit();
    }

    /// Takes a write of the processor: bit 0 is the strobe.
    pub fn write_byte(&mut self, byte: u8)
        requires
            old(self).wf(),
        ensures
            *final(self) == old(self).after_write(byte),
            final(self).wf(),
    {
        let high: bool = byte & 0b1 == 1;
        let latched: u8 = if !high && self.strobe {
            self.input
        } else {
            self.latched
        };
        let shift: usize = if high {
            0
        } else {
            self.shift
        };
        self.latched = latched;
        self.shift = shift;
        self.strobe = high;
    }

    /// Shifts out the next bit.
    pub fn read_byte(&mut self) -> (byte: u8)
        requires
            old(self).wf(),
        ensures
            byte == old(self).read_value(),
            byte <= 1,
            *final(self) == old(self).after_read(),
            final(self).wf(),
    {
        let byte: u8 = self.peek();
        let shift: usize = if self.strobe {
            self.shift
        } else {
            (self.shift + 1) % 8
        };
        self.shift = shift;
        byte
    }

    /// Returns the bit that the next read returns, and shifts nothing.
    pub fn read_byte_without_effect(&mut self) -> (byte: u8)
        requires
            old(self).wf(),
        ensures
            byte == old(self).read_value(),
            byte <= 1,
            *final(self) == *old(self),
    {
        self.peek()
    }

    /// The bit that the next read returns.
    fn peek(&self) -> (byte: u8)
        requires
            self.wf(),
        ensures
            byte == self.read_value(),
            byte <= 1,
    {
        let input: u8 = self.input;
        let latched: u8 = self.latched;
        let shift: u8 = self.shift as u8;
        assert(input & 1 <= 1) by (bit_vector);
        assert((latched >> shift) & 1 <= 1) by (bit_vector);
        if self.strobe {
            input & 1
        } else {
            (latched >> shift) & 1
        }
    }
}

/// Pressing a button sets its bit in the button vector and releasing it
/// clears the bit; the other seven bits stay as they are.
pub proof fn lemma_button_bits(input: u8, button: Button, other: u8)
    requires
        other < 8,
    ensures
        ((input | button.mask()) >> button.index()) & 1 == 1,
        ((input & !button.mask()) >> button.index()) & 1 == 0,
        other != button.index() ==> ((input | button.mask()) >> other) & 1 == (input >> other) & 1,
        other != button.index() ==> ((input & !button.mask()) >> other) & 1 == (input >> other)
            & 1,
{
    let m = button.mask();
    let i = button.index();
    assert(m == 1u8 << i) by (bit_vector)
        requires
            (i == 0 && m == 0x01) || (i == 1 && m == 0x02) || (i == 2 && m == 0x04) || (i == 3
                && m == 0x08) || (i == 4 && m == 0x10) || (i == 5 && m == 0x20) || (i == 6 && m
                == 0x40) || (i == 7 && m == 0x80),
    ;
    assert(((input | m) >> i) & 1 == 1) by (bit_vector)
        requires
            m == 1u8 << i,
            i < 8,
    ;
    assert(((input & !m) >> i) & 1 == 0) by (bit_vector)
        requires
            m == 1u8 << i,
            i < 8,
    ;
    if other != i {
        assert(((input | m) >> other) & 1 == (input >> other) & 1) by (bit_vector)
            requires
                m == 1u8 << i,
                i < 8,
                other < 8,
                other != i,
        ;
        assert(((input & !m) >> other) & 1 == (input >> other) & 1) by (bit_vector)
            requires
                m == 1u8 << i,
                i < 8,
                other < 8,
                other != i,
        ;
    }
}

/// After a write with bit 0 set and then one with bit 0 clear, the
/// `k`-th read that follows, for `k` from 0 to 7, returns bit `k` of the
/// button vector as it was at the second write, whatever the pad held before;
/// the ninth read starts over with bit 0.
pub proof fn lemma_strobe_then_reads(pad: ControllerInput, high: u8, low: u8, k: nat)
    requires
        pad.wf(),
        high & 1 == 1,
        low & 1 == 0,
        k < 8,
    ensures
        pad.after_write(high).after_write(low).after_reads(k).read_value() == (pad.input >> (
        k as u8)) & 1,
        pad.after_write(high).after_write(low).after_reads(8) == pad.after_write(high).after_write(
            low,
        ),
{
    let armed = pad.after_write(high).after_write(low);
    assert(low & 1 != 1);
    assert(armed == (ControllerInput { latched: pad.input, shift: 0, strobe: false, ..pad }));
    lemma_reads_advance(armed, 8);
    lemma_reads_advance(armed, k);
}

/// With the strobe low, `n` reads move the counter on by `n`, modulo 8, and
/// change nothing else.
pub proof fn lemma_reads_advance(pad: ControllerInput, n: nat)
    requires
        pad.wf(),
        !pad.strobe,
    ensures
        pad.after_reads(n) == (ControllerInput {
            shift: ((pad.shift + n) % 8) as usize,
            ..pad
        }),
    decreases n,
{
    if n > 0 {
        lemma_reads_advance(pad, (n - 1) as nat);
    }
}

} // verus!
