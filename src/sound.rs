//! Audio cues that a tick asks the host to play.
use vstd::prelude::*;

verus! {

/// A discrete game event with an audio cue.
#[derive(Clone, Copy, Debug, PartialEq, Eq, Hash)]
pub enum Sound {
    /// A jump from the ground.
    Jump,
    /// A jump off a wall.
    WallJump,
    /// A dash starts.
    Dash,
    /// A dash was asked for with no charge left.
    DashDenied,
    /// Dash charges were refilled on landing.
    DashRecharge,
}

/// The host's identifier for each cue.
pub open spec fn sound_id(s: Sound) -> u8 {
    match s {
        Sound::Jump => 1,
        Sound::WallJump => 2,
        Sound::Dash => 3,
        Sound::DashDenied => 9,
        Sound::DashRecharge => 54,
    }
}

impl Sound {
    /// The host's identifier for this cue.
    pub fn id(&self) -> (r: u8)
        ensures
            r == sound_id(*self),
    {
        match self {
            Sound::Jump => 1,
            Sound::WallJump => 2,
            Sound::Dash => 3,
            Sound::DashDenied => 9,
            Sound::DashRecharge => 54,
        }
    }
}

/// The number of jump cues (from the ground or off a wall) in `s`.
pub open spec fn count_jumps(s: Seq<Sound>) -> nat
    decreases s.len(),
{
    if s.len() == 0 {
        0
    } else {
        count_jumps(s.drop_last()) + if s.last() is Jump || s.last() is WallJump {
            1nat
        } else {
            0nat
        }
    }
}

/// The number of times `cue` occurs in `s`.
pub open spec fn count_of(s: Seq<Sound>, cue: Sound) -> nat
    decreases s.len(),
{
    if s.len() == 0 {
        0
    } else {
        count_of(s.drop_last(), cue) + if s.last() == cue {
            1nat
        } else {
            0nat
        }
    }
}

} // verus!
