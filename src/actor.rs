//! The actor record, its tuning constants and its well-formedness.
use vstd::prelude::*;

use crate::geometry::{Color, Hitbox, Vector2};
use crate::world::{placeable, HITBOX_LIMIT, POS_LIMIT};

verus! {

/// The number of points in the hair chain.
pub const HAIR_COUNT: usize = 5;
/// Ticks after leaving the ground during which a jump still succeeds.
pub const JUMP_GRACE_TIME: i64 = 6000;
/// Ticks during which an early jump press is remembered.
pub const JUMP_BUFFER_TIME: i64 = 4000;
/// Top running speed.
pub const MAX_SPEED: i64 = 1000;
/// Horizontal speed given by a wall jump, away from the wall.
pub const WALL_JUMP_SPEED: i64 = 2000;
/// Horizontal acceleration on the ground, per tick.
pub const GROUND_ACCEL: i64 = 600;
/// Horizontal acceleration in the air, per tick.
pub const AIR_ACCEL: i64 = 600;
/// Deceleration toward top speed when running faster than it, per tick.
pub const DECEL: i64 = 150;
/// Terminal fall speed.
pub const MAX_FALL: i64 = 2000;
/// Terminal fall speed while pushing into a wall.
pub const MAX_FALL_SLIDE: i64 = 600;
/// Gravity, per tick.
pub const GRAVITY: i64 = 210;
/// Gravity near the top of a jump, per tick.
pub const HALF_GRAVITY: i64 = 105;
/// Vertical speeds of at most this size get half gravity.
pub const HALF_GRAVITY_THRESHOLD: i64 = 150;
/// Vertical speed given by a jump (upward).
pub const JUMP_SPEED: i64 = -2000;
/// Speed at the start of a straight dash.
pub const DASH_SPEED: i64 = 5000;
/// Speed on each axis at the start of a diagonal dash: the dash speed over the
/// square root of two.
pub const DASH_DIAGONAL_SPEED: i64 = 3536;
/// Length of a dash.
pub const DASH_TIME: i64 = 4000;
/// Length of the dash's visual effect.
pub const DASH_EFFECT_TIME: i64 = 10000;
/// Speed that a dash slows to.
pub const DASH_TARGET: i64 = 2000;
/// Speed that an upward dash slows to on the vertical axis: three quarters of
/// the dash target.
pub const DASH_UPWARDS_TARGET: i64 = 1500;
/// Rate at which a dash slows, per tick.
pub const DASH_ACCEL: i64 = 1500;
/// Rate on one axis of a dash that also moves on the other: the dash rate over
/// the square root of two.
pub const DASH_DIAGONAL_ACCEL: i64 = 1061;
/// Distance in pixels at which walls allow a wall jump.
pub const WALL_JUMP_CHECK_DISTANCE: i32 = 3;
/// The hair easing time chosen by `CLST_Init`: each tick, a hair point covers
/// one part in 1.002 of its distance to the point it follows.
pub const HAIR_EASING: i64 = 1002;
/// Length of the run cycle, four frames of four ticks each.
pub const RUN_CYCLE: i64 = 16000;
/// Length of one run-cycle frame.
pub const RUN_FRAME: i64 = 4000;
/// Length of one hair flash period, in microseconds.
pub const FLASH_PERIOD_US: u64 = 200000;
/// The part of a flash period during which the hair is white, from its
/// middle on, in microseconds.
pub const FLASH_ON_US: u64 = 100000;

/// Bound on each speed, dash target and dash acceleration.
pub const SPEED_LIMIT: i64 = 0x100_0000;
/// Bound on each countdown timer.
pub const TIME_LIMIT: i64 = 0x1000_0000;
/// Bound on the length of one tick.
pub const MAX_DT: i64 = 0x800_0000;
/// Bound on each coordinate of a hair point.
pub const HAIR_LIMIT: i64 = 0x200_0000_0000;
/// Bound on the hair easing time.
pub const EASING_LIMIT: i64 = 0x1_0000;

/// An actor: Madeline, with position, velocity, timers and hair.
///
/// Positions are in pixels, with Y going down. Velocities, remainders and hair
/// points are in thousandths of a pixel (per tick); timers are in thousandths
/// of a tick.
#[derive(Clone, Copy, Debug, PartialEq, Eq)]
pub struct Maddy {
    pub hitbox: Hitbox,
    pub hair: [Vector2; 5],
    pub dash_target: Vector2,
    pub dash_accel: Vector2,
    pub speed: Vector2,
    pub x: i32,
    pub y: i32,
    /// Sub-pixel position, kept within half a pixel after each tick.
    pub rem: Vector2,
    pub jump_buffer: i64,
    pub jump_grace: i64,
    pub dashes: u8,
    pub max_dashes: u8,
    pub dash_time: i64,
    pub dash_effect_time: i64,
    pub sprite: u8,
    pub sprite_offset: i64,
    pub was_on_ground: bool,
    pub flip_x: bool,
    pub jump_last_tick: bool,
    pub dash_last_tick: bool,
    /// Time since creation, in microseconds.
    pub time_elapsed: u64,
    /// How many thousandths of a tick a hair point takes to close the gap to
    /// the point it follows; at most one tick's worth of gap is closed per tick.
    pub hair_easing: i64,
}

/// Whether `v` lies within `-limit ..= limit` on both axes.
pub open spec fn bounded(v: Vector2, limit: int) -> bool {
    -limit <= v.x <= limit && -limit <= v.y <= limit
}

/// Whether a timer value is within bounds.
pub open spec fn timer_ok(t: i64) -> bool {
    -TIME_LIMIT <= t <= TIME_LIMIT
}

impl Maddy {
    /// The actor's invariant: charges within the maximum, and every quantity
    /// within the bounds that keep the arithmetic exact.
    pub open spec fn wf(&self) -> bool {
        &&& placeable(self.x as int, self.y as int, self.hitbox)
        &&& self.dashes <= self.max_dashes
        &&& bounded(self.speed, SPEED_LIMIT as int)
        &&& bounded(self.dash_target, SPEED_LIMIT as int)
        &&& 0 <= self.dash_accel.x <= SPEED_LIMIT
        &&& 0 <= self.dash_accel.y <= SPEED_LIMIT
        &&& -500 <= self.rem.x < 500
        &&& -500 <= self.rem.y < 500
        &&& timer_ok(self.jump_buffer)
        &&& timer_ok(self.jump_grace)
        &&& timer_ok(self.dash_time)
        &&& timer_ok(self.dash_effect_time)
        &&& 0 <= self.sprite_offset < RUN_CYCLE
        &&& forall|k: int| 0 <= k < 5 ==> bounded(#[trigger] self.hair[k], HAIR_LIMIT as int)
        &&& 1 <= self.hair_easing <= EASING_LIMIT
    }

    /// Checks the invariant at run time, for callers outside the library.
    pub fn is_well_formed(&self) -> (r: bool)
        ensures
            r == self.wf(),
    {
        let mut k: usize = 0;
        let mut hair_ok = true;
        while k < HAIR_COUNT
            invariant
                k <= 5,
                hair_ok == forall|i: int| 0 <= i < k ==> bounded(#[trigger] self.hair[i], HAIR_LIMIT as int),
            decreases 5 - k,
        {
            let p = self.hair[k];
            hair_ok = hair_ok && -HAIR_LIMIT <= p.x && p.x <= HAIR_LIMIT && -HAIR_LIMIT <= p.y
                && p.y <= HAIR_LIMIT;
            k = k + 1;
        }
        let hb = self.hitbox;
        let placed = -POS_LIMIT <= self.x && self.x <= POS_LIMIT && -POS_LIMIT <= self.y && self.y
            <= POS_LIMIT && -HITBOX_LIMIT <= hb.x && hb.x <= HITBOX_LIMIT && -HITBOX_LIMIT <= hb.y
            && hb.y <= HITBOX_LIMIT && -HITBOX_LIMIT <= hb.w && hb.w <= HITBOX_LIMIT && -HITBOX_LIMIT
            <= hb.h && hb.h <= HITBOX_LIMIT;
        let speeds = in_bounds(self.speed, SPEED_LIMIT) && in_bounds(self.dash_target, SPEED_LIMIT)
            && 0 <= self.dash_accel.x && self.dash_accel.x <= SPEED_LIMIT && 0 <= self.dash_accel.y
            && self.dash_accel.y <= SPEED_LIMIT;
        let rems = -500 <= self.rem.x && self.rem.x < 500 && -500 <= self.rem.y && self.rem.y < 500;
        let timers = in_time(self.jump_buffer) && in_time(self.jump_grace) && in_time(self.dash_time)
            && in_time(self.dash_effect_time);
        placed && self.dashes <= self.max_dashes && speeds && rems && timers && 0
            <= self.sprite_offset && self.sprite_offset < RUN_CYCLE && hair_ok && 1
            <= self.hair_easing && self.hair_easing <= EASING_LIMIT
    }

    /// A new actor at the origin: at rest, with the default hitbox, one dash
    /// charge to its maximum but none held until it first touches the ground.
    #[allow(non_snake_case)]
    pub fn CLST_Init() -> (r: Maddy)
        ensures
            r == initial(),
            r.wf(),
    {
        let zero = Vector2 { x: 0, y: 0 };
        Maddy {
            hitbox: Hitbox { x: 1, y: 3, w: 6, h: 5 },
            hair: [zero, zero, zero, zero, zero],
            dash_target: zero,
            dash_accel: zero,
            speed: zero,
            x: 0,
            y: 0,
            rem: zero,
            jump_buffer: 0,
            jump_grace: 0,
            dashes: 0,
            max_dashes: 1,
            dash_time: 0,
            dash_effect_time: 0,
            sprite: 0,
            sprite_offset: 0,
            was_on_ground: false,
            flip_x: false,
            jump_last_tick: false,
            dash_last_tick: false,
            time_elapsed: 0,
            hair_easing: HAIR_EASING,
        }
    }

    /// Releases an actor that the host no longer needs.
    #[allow(non_snake_case)]
    pub fn CLST_Drop(self) {
    }

    /// The hair color to draw: white while dashing or flashing, else by the
    /// number of charges held. With `disable_flashing`, never white.
    #[allow(non_snake_case)]
    pub fn CLST_HairColor(&self, disable_flashing: bool) -> (c: Color)
        ensures
            c == hair_color(*self, disable_flashing),
    {
        if self.dash_time > 0 && !disable_flashing {
            return Color::new(0xff, 0xf1, 0xe8, 0xff);
        }
        if self.dashes == 0 {
            Color::new(0x29, 0xad, 0xff, 0xff)
        } else if self.dashes == 1 {
            Color::new(0xff, 0x00, 0x4d, 0xff)
        } else if self.time_elapsed % FLASH_PERIOD_US >= FLASH_ON_US && !disable_flashing {
            Color::new(0xff, 0xf1, 0xe8, 0xff)
        } else {
            Color::new(0x00, 0xe4, 0x36, 0xff)
        }
    }
}

/// The actor that `CLST_Init` makes.
pub open spec fn initial() -> Maddy {
    let zero = Vector2 { x: 0, y: 0 };
    Maddy {
        hitbox: Hitbox { x: 1, y: 3, w: 6, h: 5 },
        hair: [zero, zero, zero, zero, zero],
        dash_target: zero,
        dash_accel: zero,
        speed: zero,
        x: 0,
        y: 0,
        rem: zero,
        jump_buffer: 0,
        jump_grace: 0,
        dashes: 0,
        max_dashes: 1,
        dash_time: 0,
        dash_effect_time: 0,
        sprite: 0,
        sprite_offset: 0,
        was_on_ground: false,
        flip_x: false,
        jump_last_tick: false,
        dash_last_tick: false,
        time_elapsed: 0,
        hair_easing: HAIR_EASING,
    }
}

/// The hair color of `a`.
pub open spec fn hair_color(a: Maddy, disable_flashing: bool) -> Color {
    let white = Color { r: 0xff, g: 0xf1, b: 0xe8, a: 0xff };
    if a.dash_time > 0 && !disable_flashing {
        white
    } else if a.dashes == 0 {
        Color { r: 0x29, g: 0xad, b: 0xff, a: 0xff }
    } else if a.dashes == 1 {
        Color { r: 0xff, g: 0x00, b: 0x4d, a: 0xff }
    } else if a.time_elapsed % FLASH_PERIOD_US >= FLASH_ON_US && !disable_flashing {
        white
    } else {
        Color { r: 0x00, g: 0xe4, b: 0x36, a: 0xff }
    }
}

fn in_bounds(v: Vector2, limit: i64) -> (r: bool)
    requires
        limit >= 0,
    ensures
        r == bounded(v, limit as int),
{
    -limit <= v.x && v.x <= limit && -limit <= v.y && v.y <= limit
}

fn in_time(t: i64) -> (r: bool)
    ensures
        r == timer_ok(t),
{
    -TIME_LIMIT <= t && t <= TIME_LIMIT
}

} // verus!
