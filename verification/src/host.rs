//! Decisions of the shell around the console: what a key means, how fast
//! frames follow each other, how a frame is enlarged.

use crate::controller::Button;
use crate::ppu::view::Screen;
use vstd::prelude::*;

verus! {

/// The keys that a window around the console reacts to.
#[derive(Debug, Clone, Copy, PartialEq, Eq, Structural)]
pub enum Key {
    F,
    D,
    S,
    A,
    Up,
    Down,
    Left,
    Right,
    O,
    Tab,
    Escape,
    Other,
}

/// What a key asks of the window.
#[derive(Debug, Clone, Copy, PartialEq, Eq, Structural)]
pub enum KeyAction {
    /// The key stands for a button of the pad.
    Pad(Button),
    /// Ask for another cartridge and start over with it.
    OpenCartridge,
    /// Switch between the normal and the unlimited frame rate.
    ToggleSpeed,
    /// Close the window.
    Quit,
    Nothing,
}

/// The button of the pad that a key stands for: F, D, S, A for A, B, Select,
/// Start, and the arrows for the directions.
pub open spec fn pad_button(key: Key) -> Option<Button> {
    match key {
        Key::F => Some(Button::A),
        Key::D => Some(Button::B),
        Key::S => Some(Button::Select),
        Key::A => Some(Button::Start),
        Key::Up => Some(Button::Up),
        Key::Down => Some(Button::Down),
        Key::Left => Some(Button::Left),
        Key::Right => Some(Button::Right),
        _ => None,
    }
}

/// The button of the pad that a key stands for, if any.
pub fn button_for_key(key: Key) -> (button: Option<Button>)
    ensures
        button == pad_button(key),
{
    match key {
        Key::F => Some(Button::A),
        Key::D => Some(Button::B),
        Key::S => Some(Button::Select),
        Key::A => Some(Button::Start),
        Key::Up => Some(Button::Up),
        Key::Down => Some(Button::Down),
        Key::Left => Some(Button::Left),
        Key::Right => Some(Button::Right),
        _ => None,
    }
}

/// What a key going down asks for: its button is pressed, O opens a
/// cartridge, Tab switches the speed.
pub fn key_pressed(key: Key) -> (action: KeyAction)
    ensures
        action == match pad_button(key) {
            Some(button) => KeyAction::Pad(button),
            None => match key {
                Key::O => KeyAction::OpenCartridge,
                Key::Tab => KeyAction::ToggleSpeed,
                _ => KeyAction::Nothing,
            },
        },
{
    match button_for_key(key) {
        Some(button) => KeyAction::Pad(button),
        None => match key {
            Key::O => KeyAction::OpenCartridge,
            Key::Tab => KeyAction::ToggleSpeed,
            _ => KeyAction::Nothing,
        },
    }
}

/// What a key going up asks for: its button is released, Escape closes the
/// window.
pub fn key_released(key: Key) -> (action: KeyAction)
    ensures
        action == match pad_button(key) {
            Some(button) => KeyAction::Pad(button),
            None => match key {
                Key::Escape => KeyAction::Quit,
                _ => KeyAction::Nothing,
            },
        },
{
    match button_for_key(key) {
        Some(button) => KeyAction::Pad(button),
        None => match key {
            Key::Escape => KeyAction::Quit,
            _ => KeyAction::Nothing,
        },
    }
}

/// Frames per second at which a window starts out.
pub const START_FRAME_RATE: u64 = 60;

/// The frame-rate limit after the speed has been switched: practically none
/// in the fast mode, 68 frames per second else.
pub fn frame_rate_limit(fast: bool) -> (limit: u64)
    ensures
        limit == if fast { 10000u64 } else { 68u64 },
{
    if fast {
        10000
    } else {
        68
    }
}

/// The pixel at (`x`, `y`) of the frame enlarged `scale` times: the pixel of
/// the frame that covers it.
pub fn enlarged_pixel(display: &Screen, scale: usize, x: usize, y: usize) -> (pixel: [u8; 3])
    requires
        scale >= 1,
        x < 256 * scale,
        y < 240 * scale,
    ensures
        pixel == display@[y as int / scale as int]@[x as int / scale as int],
{
    assert(x / scale < 256 && y / scale < 240) by (nonlinear_arith)
        requires
            scale >= 1,
            x < 256 * scale,
            y < 240 * scale,
    ;
    display[y / scale][x / scale]
}

} // verus!
