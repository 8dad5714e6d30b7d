//! The button matrix behind the joypad register.

use vstd::prelude::*;
use crate::soc::nvic::{InterruptSources, Nvic};

verus! {

/// The eight buttons.
#[derive(Copy, Clone, PartialEq, Eq, Structural, Debug)]
pub enum Key {
    Right,
    Left,
    Up,
    Down,
    A,
    B,
    Select,
    Start,
}

impl Key {
    /// The button sits in the direction column (else in the action column).
    pub open spec fn is_direction(self) -> bool {
        self == Key::Right || self == Key::Left || self == Key::Up || self == Key::Down
    }

    /// The line of the button within its column.
    pub open spec fn line(self) -> u8 {
        match self {
            Key::Right | Key::A => 0x01u8,
            Key::Left | Key::B => 0x02u8,
            Key::Up | Key::Select => 0x04u8,
            Key::Down | Key::Start => 0x08u8,
        }
    }
}

/// Column select and the state of the two columns. In a column a line is 1
/// while its button is released and 0 while it is held. Every value of the
/// three fields is a legal state; only bits 5 and 4 of `select` and the low
/// nibble of each column are ever looked at.
pub struct Keypad {
    /// Bit 4 low selects the direction column, bit 5 low the action column.
    pub select: u8,
    pub directions: u8,
    pub actions: u8,
}

impl Keypad {
    /// The four lines as the register shows them: a line reads 0 when a
    /// button on it is held in a selected column.
    pub open spec fn visible(self) -> u8 {
        (if self.select & 0x10 == 0 {
            self.directions
        } else {
            0x0Fu8
        }) & (if self.select & 0x20 == 0 {
            self.actions
        } else {
            0x0Fu8
        }) & 0x0F
    }

    /// The joypad register as the bus reads it.
    pub open spec fn byte(self) -> u8 {
        0xC0u8 | (self.select & 0x30) | self.visible()
    }

    /// Some visible line is high in `self` and low in `after`.
    pub open spec fn falls_to(self, after: Keypad) -> bool {
        self.visible() & !after.visible() != 0
    }

    /// The keypad after a write of `data` to the joypad register.
    pub open spec fn after_control(self, data: u8) -> Keypad {
        Keypad { select: data & 0x30, ..self }
    }

    /// The keypad after `key` was pressed or released.
    pub open spec fn after_key(self, key: Key, pressed: bool) -> Keypad {
        if key.is_direction() {
            Keypad {
                directions: if pressed {
                    self.directions & !key.line()
                } else {
                    self.directions | key.line()
                },
                ..self
            }
        } else {
            Keypad {
                actions: if pressed {
                    self.actions & !key.line()
                } else {
                    self.actions | key.line()
                },
                ..self
            }
        }
    }

    /// Both columns selected, no button held.
    pub fn new() -> (keypad: Keypad)
        ensures
            keypad == (Keypad { select: 0, directions: 0x0F, actions: 0x0F }),
    {
        Keypad { select: 0, directions: 0x0F, actions: 0x0F }
    }

    fn lines(&self) -> (nibble: u8)
        ensures
            nibble == self.visible(),
    {
        let directions: u8 = if self.select & 0x10 == 0 {
            self.directions
        } else {
            0x0F
        };
        let actions: u8 = if self.select & 0x20 == 0 {
            self.actions
        } else {
            0x0F
        };
        directions & actions & 0x0F
    }

    /// Reads the joypad register.
    pub fn get(&self) -> (data: u8)
        ensures
            data == self.byte(),
    {
        0xC0 | (self.select & 0x30) | self.lines()
    }

    /// Writes the joypad register: bits 5 and 4 select the columns. Flags the
    /// joypad line on `nvic` when a visible line falls.
    pub fn control(&mut self, data: u8, nvic: &mut Nvic)
        ensures
            *final(self) == old(self).after_control(data),
            *final(nvic) == old(nvic).raised_if(
                old(self).falls_to(old(self).after_control(data)),
                InterruptSources::JOYPAD,
            ),
    {
        let before: u8 = self.lines();
        self.select = data & 0x30;
        let after: u8 = self.lines();
        if before & !after != 0 {
            nvic.set_interrupt(InterruptSources::JOYPAD);
        }
    }

    /// Records that `key` is now held (`pressed`) or released. Flags the
    /// joypad line on `nvic` when a visible line falls.
    pub fn set_key(&mut self, key: Key, pressed: bool, nvic: &mut Nvic)
        ensures
            *final(self) == old(self).after_key(key, pressed),
            *final(nvic) == old(nvic).raised_if(
                old(self).falls_to(old(self).after_key(key, pressed)),
                InterruptSources::JOYPAD,
            ),
    {
        let before: u8 = self.lines();
        let line: u8 = match key {
            Key::Right | Key::A => 0x01,
            Key::Left | Key::B => 0x02,
            Key::Up | Key::Select => 0x04,
            Key::Down | Key::Start => 0x08,
        };
        match key {
            Key::Right | Key::Left | Key::Up | Key::Down => {
                if pressed {
                    self.directions = self.directions & !line;
                } else {
                    self.directions = self.directions | line;
                }
            },
            _ => {
                if pressed {
                    self.actions = self.actions & !line;
                } else {
                    self.actions = self.actions | line;
                }
            },
        }
        let after: u8 = self.lines();
        if before & !after != 0 {
            nvic.set_interrupt(InterruptSources::JOYPAD);
        }
    }
}

/// The two upper bits of the joypad register always read as one, and the
/// select bits read back as written.
pub proof fn lemma_register_layout(keypad: Keypad)
    ensures
        keypad.byte() & 0xC0 == 0xC0,
        keypad.byte() & 0x30 == keypad.select & 0x30,
        keypad.byte() & 0x0F == keypad.visible(),
{
    let s = keypad.select;
    let d = keypad.directions;
    let a = keypad.actions;
    let v = keypad.visible();
    assert(v & 0xF0 == 0) by (bit_vector)
        requires
            v == (d & a & 0x0F) || v == (d & 0x0Fu8 & 0x0F) || v == (0x0Fu8 & a & 0x0F) || v == (
            0x0Fu8 & 0x0Fu8 & 0x0F),
    ;
    assert((0xC0u8 | (s & 0x30) | v) & 0xC0 == 0xC0) by (bit_vector);
    assert((0xC0u8 | (s & 0x30) | v) & 0x30 == s & 0x30) by (bit_vector)
        requires
            v & 0xF0 == 0,
    ;
    assert((0xC0u8 | (s & 0x30) | v) & 0x0F == v) by (bit_vector)
        requires
            v & 0xF0 == 0,
    ;
}

/// Pressing a button in a selected column pulls its line low: the register
/// then shows the line as 0, and the joypad line is flagged if it was high.
pub proof fn lemma_press_shows(keypad: Keypad, key: Key)
    requires
        key.is_direction() ==> keypad.select & 0x10 == 0,
        !key.is_direction() ==> keypad.select & 0x20 == 0,
    ensures
        keypad.after_key(key, true).visible() & key.line() == 0,
        keypad.visible() & key.line() != 0 ==> keypad.falls_to(keypad.after_key(key, true)),
{
    let s = keypad.select;
    let d = keypad.directions;
    let a = keypad.actions;
    let l = key.line();
    let other: u8 = if key.is_direction() {
        if s & 0x20 == 0 {
            a
        } else {
            0x0Fu8
        }
    } else {
        if s & 0x10 == 0 {
            d
        } else {
            0x0Fu8
        }
    };
    let mine: u8 = if key.is_direction() {
        d
    } else {
        a
    };
    let before = keypad.visible();
    let after = keypad.after_key(key, true).visible();
    let kept: u8 = mine & !l;
    assert(before == mine & other & 0x0F) by (bit_vector)
        requires
            before == mine & other & 0x0F || before == other & mine & 0x0F,
    ;
    assert(after == kept & other & 0x0F) by (bit_vector)
        requires
            after == kept & other & 0x0F || after == other & kept & 0x0F,
    ;
    assert(after & l == 0) by (bit_vector)
        requires
            after == kept & other & 0x0F,
            kept == mine & !l,
    ;
    assert(before & l != 0 ==> before & !after != 0) by (bit_vector)
        requires
            before == mine & other & 0x0F,
            after == kept & other & 0x0F,
            kept == mine & !l,
    ;
}

} // verus!
