//! The per-tick input byte and its decoding.
use vstd::prelude::*;

verus! {

/// Bit 7: the left key is held.
pub const KEYFLAG_LEFT: u8 = 0x80;
/// Bit 6: the up key is held.
pub const KEYFLAG_UP: u8 = 0x40;
/// Bit 5: the down key is held.
pub const KEYFLAG_DOWN: u8 = 0x20;
/// Bit 4: the right key is held.
pub const KEYFLAG_RIGHT: u8 = 0x10;
/// Bit 1: the dash key is held.
pub const KEYFLAG_DASH: u8 = 0x02;
/// Bit 0: the jump key is held.
pub const KEYFLAG_JUMP: u8 = 0x01;

/// The keys held during one tick, decoded.
#[derive(Clone, Copy, Debug, PartialEq, Eq)]
pub struct Input {
    /// Horizontal direction: 1 for right, -1 for left, 0 for neither. Right wins.
    pub x: i32,
    /// Vertical direction: -1 for up, 1 for down, 0 for neither. Up wins.
    pub y: i32,
    /// The up key is held.
    pub up: bool,
    /// The down key is held.
    pub down: bool,
    /// The jump key is held.
    pub jump: bool,
    /// The dash key is held.
    pub dash: bool,
}

/// Whether `flag` is set in `keys`.
pub open spec fn pressed(keys: u8, flag: u8) -> bool {
    keys & flag != 0
}

/// The decoding of an input byte.
pub open spec fn input_of(keys: u8) -> Input {
    Input {
        x: if pressed(keys, KEYFLAG_RIGHT) {
            1
        } else if pressed(keys, KEYFLAG_LEFT) {
            -1i32
        } else {
            0
        },
        y: if pressed(keys, KEYFLAG_UP) {
            -1i32
        } else if pressed(keys, KEYFLAG_DOWN) {
            1
        } else {
            0
        },
        up: pressed(keys, KEYFLAG_UP),
        down: pressed(keys, KEYFLAG_DOWN),
        jump: pressed(keys, KEYFLAG_JUMP),
        dash: pressed(keys, KEYFLAG_DASH),
    }
}

impl Input {
    /// Whether the input is one that `input_of` can produce.
    pub open spec fn valid(self) -> bool {
        &&& -1 <= self.x <= 1
        &&& -1 <= self.y <= 1
    }

    /// Decodes an input byte.
    pub fn from_keys(keys: u8) -> (r: Input)
        ensures
            r == input_of(keys),
            r.valid(),
    {
        let right = keys & KEYFLAG_RIGHT != 0;
        let left = keys & KEYFLAG_LEFT != 0;
        let up = keys & KEYFLAG_UP != 0;
        let down = keys & KEYFLAG_DOWN != 0;
        let x: i32 = if right {
            1
        } else if left {
            -1
        } else {
            0
        };
        let y: i32 = if up {
            -1
        } else if down {
            1
        } else {
            0
        };
        Input { x, y, up, down, jump: keys & KEYFLAG_JUMP != 0, dash: keys & KEYFLAG_DASH != 0 }
    }
}

} // verus!
