//! Joypad state and its memory-mapped register.
//!
//! The register at 0xFF00 is a derived view, never primary storage: two
//! selector bits choose which half of the key matrix is visible, and each
//! visible key reads as a cleared bit in the low nibble.

use vstd::prelude::*;

verus! {

/// The eight keys of the pad.
#[derive(Debug, Clone, Copy, PartialEq, Eq, Structural)]
pub enum Button {
    A,
    B,
    Start,
    Select,
    Up,
    Down,
    Left,
    Right,
}

/// Selector bits and the eight independent pressed flags.
#[derive(Debug, Clone, Copy, PartialEq, Eq, Structural)]
pub struct Input {
    pub select_button_keys: bool,
    pub select_direction_keys: bool,
    pub a: bool,
    pub b: bool,
    pub start: bool,
    pub select: bool,
    pub up: bool,
    pub down: bool,
    pub left: bool,
    pub right: bool,
}

impl Default for Input {
    /// Neither half selected, nothing pressed.
    fn default() -> (r: Self)
        ensures
            r == spec_input_default(),
    {
        Input {
            select_button_keys: false,
            select_direction_keys: false,
            a: false,
            b: false,
            start: false,
            select: false,
            up: false,
            down: false,
            left: false,
            right: false,
        }
    }
}

/// The joypad state at reset: neither half selected, nothing pressed.
pub open spec fn spec_input_default() -> Input {
    Input {
        select_button_keys: false,
        select_direction_keys: false,
        a: false,
        b: false,
        start: false,
        select: false,
        up: false,
        down: false,
        left: false,
        right: false,
    }
}

/// The value read back at 0xFF00: the two selector bits as last written,
/// and the low nibble showing each selected pressed key as a 0.
pub open spec fn spec_joyp(inp: Input) -> u8 {
    let base: u8 = (if inp.select_button_keys { 0x2Fu8 } else { 0x0Fu8 }) | (
    if inp.select_direction_keys { 0x10u8 } else { 0u8 });
    let after_buttons: u8 = if inp.select_button_keys {
        base & !((if inp.start { 0x08u8 } else { 0u8 }) | (if inp.select { 0x04u8 } else { 0u8 })
            | (if inp.b { 0x02u8 } else { 0u8 }) | (if inp.a { 0x01u8 } else { 0u8 }))
    } else {
        base
    };
    if inp.select_direction_keys {
        after_buttons & !((if inp.down { 0x08u8 } else { 0u8 }) | (if inp.up {
            0x04u8
        } else {
            0u8
        }) | (if inp.left { 0x02u8 } else { 0u8 }) | (if inp.right { 0x01u8 } else { 0u8 }))
    } else {
        after_buttons
    }
}

impl Input {
    /// Composes the joypad register value from the selectors and the
    /// pressed keys.
    pub fn read_ff00(&self) -> (r: u8)
        ensures
            r == spec_joyp(*self),
    {
        let base: u8 = (if self.select_button_keys { 0x2Fu8 } else { 0x0Fu8 }) | (
        if self.select_direction_keys { 0x10u8 } else { 0u8 });
        let after_buttons: u8 = if self.select_button_keys {
            base & !((if self.start { 0x08u8 } else { 0u8 }) | (if self.select {
                0x04u8
            } else {
                0u8
            }) | (if self.b { 0x02u8 } else { 0u8 }) | (if self.a { 0x01u8 } else { 0u8 }))
        } else {
            base
        };
        if self.select_direction_keys {
            after_buttons & !((if self.down { 0x08u8 } else { 0u8 }) | (if self.up {
                0x04u8
            } else {
                0u8
            }) | (if self.left { 0x02u8 } else { 0u8 }) | (if self.right {
                0x01u8
            } else {
                0u8
            }))
        } else {
            after_buttons
        }
    }

    /// Latches the two selector bits; the key flags are untouched.
    pub fn write_ff00(&mut self, value: u8)
        ensures
            final(self).select_button_keys == (value & 0x20 != 0),
            final(self).select_direction_keys == (value & 0x10 != 0),
            *final(self) == (Input {
                select_button_keys: final(self).select_button_keys,
                select_direction_keys: final(self).select_direction_keys,
                ..*old(self)
            }),
    {
        self.select_button_keys = value & 0x20 != 0;
        self.select_direction_keys = value & 0x10 != 0;
    }

    /// Marks one key as held down.
    pub fn press_button(&mut self, button: Button)
        ensures
            *final(self) == spec_with_button(*old(self), button, true),
    {
        match button {
            Button::A => self.a = true,
            Button::B => self.b = true,
            Button::Select => self.select = true,
            Button::Start => self.start = true,
            Button::Right => self.right = true,
            Button::Left => self.left = true,
            Button::Up => self.up = true,
            Button::Down => self.down = true,
        }
    }

    /// Marks one key as released.
    pub fn release_button(&mut self, button: Button)
        ensures
            *final(self) == spec_with_button(*old(self), button, false),
    {
        match button {
            Button::A => self.a = false,
            Button::B => self.b = false,
            Button::Select => self.select = false,
            Button::Start => self.start = false,
            Button::Right => self.right = false,
            Button::Left => self.left = false,
            Button::Up => self.up = false,
            Button::Down => self.down = false,
        }
    }
}

/// The input state with one key's pressed flag replaced.
pub open spec fn spec_with_button(inp: Input, button: Button, v: bool) -> Input {
    match button {
        Button::A => Input { a: v, ..inp },
        Button::B => Input { b: v, ..inp },
        Button::Select => Input { select: v, ..inp },
        Button::Start => Input { start: v, ..inp },
        Button::Right => Input { right: v, ..inp },
        Button::Left => Input { left: v, ..inp },
        Button::Up => Input { up: v, ..inp },
        Button::Down => Input { down: v, ..inp },
    }
}

} // verus!
