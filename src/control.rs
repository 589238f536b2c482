//! The controllers of one tick, before movement: timers, jumping, dashing,
//! running, gravity and the choice of sprite.
use vstd::prelude::*;

use crate::actor::{
    Maddy, AIR_ACCEL, DASH_ACCEL, DASH_DIAGONAL_ACCEL, DASH_DIAGONAL_SPEED, DASH_EFFECT_TIME,
    DASH_SPEED, DASH_TARGET, DASH_TIME, DASH_UPWARDS_TARGET, DECEL, GRAVITY, GROUND_ACCEL,
    HALF_GRAVITY, HALF_GRAVITY_THRESHOLD, JUMP_BUFFER_TIME, JUMP_GRACE_TIME, JUMP_SPEED, MAX_DT,
    MAX_FALL, MAX_FALL_SLIDE, MAX_SPEED, RUN_CYCLE, RUN_FRAME, SPEED_LIMIT, WALL_JUMP_SPEED,
};
use crate::fixed::{approach, approach_spec, floor_div, lemma_approach_between, ONE};
use crate::geometry::Vector2;
use crate::input::Input;
use crate::sound::Sound;

verus! {

/// A timer after one tick: counted down by `dt` while positive.
pub open spec fn countdown(t: i64, dt: int) -> i64 {
    if t > 0 {
        (t - dt) as i64
    } else {
        t
    }
}

/// `rate` per tick, over `dt` thousandths of a tick, rounded down.
pub open spec fn scaled(rate: int, dt: int) -> int {
    rate * dt / ONE as int
}

/// -1, 0 or 1 by the sign of `v`.
pub open spec fn sign(v: int) -> int {
    if v > 0 {
        1
    } else if v < 0 {
        -1
    } else {
        0
    }
}

/// The jump key went down this tick.
pub open spec fn jump_pressed(a: Maddy, inp: Input) -> bool {
    inp.jump && !a.jump_last_tick
}

/// The dash key went down this tick.
pub open spec fn dash_pressed(a: Maddy, inp: Input) -> bool {
    inp.dash && !a.dash_last_tick
}

/// Touching the ground with charges missing refills them.
pub open spec fn recharges(a: Maddy, grounded: bool) -> bool {
    grounded && a.dashes < a.max_dashes
}

/// The timers and latches after the start of a tick.
pub open spec fn timers_spec(a: Maddy, inp: Input, dt: int, grounded: bool) -> Maddy {
    Maddy {
        jump_buffer: if jump_pressed(a, inp) {
            JUMP_BUFFER_TIME
        } else {
            countdown(a.jump_buffer, dt)
        },
        jump_grace: if grounded {
            JUMP_GRACE_TIME
        } else {
            countdown(a.jump_grace, dt)
        },
        dashes: if recharges(a, grounded) {
            a.max_dashes
        } else {
            a.dashes
        },
        dash_effect_time: countdown(a.dash_effect_time, dt),
        jump_last_tick: inp.jump,
        dash_last_tick: inp.dash,
        ..a
    }
}

/// One tick of a dash: the timer runs down and the velocity approaches the
/// dash target on each axis.
pub open spec fn dash_step_spec(a: Maddy, dt: int) -> Maddy {
    Maddy {
        dash_time: (a.dash_time - dt) as i64,
        speed: Vector2 {
            x: approach_spec(a.speed.x as int, a.dash_target.x as int, scaled(a.dash_accel.x as int, dt)) as i64,
            y: approach_spec(a.speed.y as int, a.dash_target.y as int, scaled(a.dash_accel.y as int, dt)) as i64,
        },
        ..a
    }
}

/// The horizontal velocity after running: above top speed it decelerates
/// toward top speed, else it approaches the input direction at top speed.
pub open spec fn run_speed(a: Maddy, inp: Input, dt: int, grounded: bool) -> int {
    let accel = if grounded {
        GROUND_ACCEL
    } else {
        AIR_ACCEL
    };
    let sx = a.speed.x as int;
    if sx > MAX_SPEED || sx < -MAX_SPEED {
        approach_spec(sx, sign(sx) * MAX_SPEED, scaled(DECEL as int, dt))
    } else {
        approach_spec(sx, inp.x * MAX_SPEED, scaled(accel as int, dt))
    }
}

/// Horizontal acceleration, and facing updated from a nonzero velocity.
pub open spec fn run_spec(a: Maddy, inp: Input, dt: int, grounded: bool) -> Maddy {
    let sx = run_speed(a, inp, dt, grounded);
    Maddy {
        speed: Vector2 { x: sx as i64, ..a.speed },
        flip_x: if sx != 0 {
            sx < 0
        } else {
            a.flip_x
        },
        ..a
    }
}

/// Gravity in the air, toward the wall-slide cap when `sliding`.
pub open spec fn fall_spec(a: Maddy, dt: int, grounded: bool, sliding: bool) -> Maddy {
    let sy = a.speed.y as int;
    let gravity = if -HALF_GRAVITY_THRESHOLD <= sy <= HALF_GRAVITY_THRESHOLD {
        HALF_GRAVITY
    } else {
        GRAVITY
    };
    let max_fall = if sliding {
        MAX_FALL_SLIDE
    } else {
        MAX_FALL
    };
    if grounded {
        a
    } else {
        Maddy {
            speed: Vector2 { y: approach_spec(sy, max_fall as int, scaled(gravity as int, dt)) as i64, ..a.speed },
            ..a
        }
    }
}

/// A buffered jump: from the ground while the grace timer runs, else off a
/// wall on the side `wall` (-1 left, 1 right, 0 none).
pub open spec fn jump_spec(a: Maddy, wall: int) -> (Maddy, Seq<Sound>) {
    if a.jump_buffer > 0 && a.jump_grace > 0 {
        (
            Maddy {
                jump_buffer: 0,
                jump_grace: 0,
                speed: Vector2 { y: JUMP_SPEED, ..a.speed },
                ..a
            },
            seq![Sound::Jump],
        )
    } else if a.jump_buffer > 0 && wall != 0 {
        (
            Maddy {
                jump_buffer: 0,
                speed: Vector2 { x: (-wall * WALL_JUMP_SPEED) as i64, y: JUMP_SPEED },
                ..a
            },
            seq![Sound::WallJump],
        )
    } else {
        (a, seq![])
    }
}

/// The velocity at the start of a dash: along the input, diagonals scaled
/// down, or along the facing with no input.
pub open spec fn dash_velocity(a: Maddy, inp: Input) -> Vector2 {
    if inp.x != 0 && inp.y != 0 {
        Vector2 { x: (inp.x * DASH_DIAGONAL_SPEED) as i64, y: (inp.y * DASH_DIAGONAL_SPEED) as i64 }
    } else if inp.y != 0 {
        Vector2 { x: 0, y: (inp.y * DASH_SPEED) as i64 }
    } else if inp.x != 0 {
        Vector2 { x: (inp.x * DASH_SPEED) as i64, y: 0 }
    } else {
        Vector2 { x: if a.flip_x { (-DASH_SPEED) as i64 } else { DASH_SPEED }, y: 0 }
    }
}

/// The speed that a dash starting at `v` slows to.
pub open spec fn dash_target_of(v: Vector2) -> Vector2 {
    Vector2 {
        x: (sign(v.x as int) * DASH_TARGET) as i64,
        y: if v.y < 0 {
            (-DASH_UPWARDS_TARGET) as i64
        } else if v.y > 0 {
            DASH_TARGET
        } else {
            0
        },
    }
}

/// The rate at which a dash starting at `v` slows on each axis.
pub open spec fn dash_accel_of(v: Vector2) -> Vector2 {
    Vector2 {
        x: if v.y != 0 {
            DASH_DIAGONAL_ACCEL
        } else {
            DASH_ACCEL
        },
        y: if v.x != 0 {
            DASH_DIAGONAL_ACCEL
        } else {
            DASH_ACCEL
        },
    }
}

/// A dash on a press of the dash key: it takes a charge, or is denied when
/// none is held.
pub open spec fn dash_trigger_spec(a: Maddy, inp: Input, pressed: bool) -> (Maddy, Seq<Sound>) {
    if !pressed {
        (a, seq![])
    } else if a.dashes > 0 {
        let v = dash_velocity(a, inp);
        (
            Maddy {
                dashes: (a.dashes - 1) as u8,
                dash_time: DASH_TIME,
                dash_effect_time: DASH_EFFECT_TIME,
                speed: v,
                dash_target: dash_target_of(v),
                dash_accel: dash_accel_of(v),
                ..a
            },
            seq![Sound::Dash],
        )
    } else {
        (a, seq![Sound::DashDenied])
    }
}

/// The sprite: wall push or fall in the air; crouch, look up, idle or one of
/// four run frames on the ground.
pub open spec fn animate_spec(a: Maddy, inp: Input, dt: int, grounded: bool, pushing: bool) -> Maddy {
    let offset = (a.sprite_offset + dt) % RUN_CYCLE as int;
    let sprite: u8 = if !grounded {
        if pushing {
            5
        } else {
            3
        }
    } else if inp.down {
        6
    } else if inp.up {
        7
    } else if a.speed.x == 0 || inp.x == 0 {
        1
    } else {
        (1 + offset / RUN_FRAME as int) as u8
    };
    Maddy { sprite_offset: offset as i64, sprite, ..a }
}

/// Arguments that the controllers accept: a well-formed actor, a valid input
/// and a tick of bounded length.
pub open spec fn step_ok(a: Maddy, inp: Input, dt: int) -> bool {
    a.wf() && inp.valid() && 0 <= dt <= MAX_DT
}

proof fn lemma_scaled_bounds(rate: int, dt: int)
    requires
        0 <= rate <= SPEED_LIMIT,
        0 <= dt <= MAX_DT,
    ensures
        0 <= rate * dt <= SPEED_LIMIT * MAX_DT,
        0 <= scaled(rate, dt) <= rate * dt,
{
    assert(0 <= rate * dt <= SPEED_LIMIT * MAX_DT) by (nonlinear_arith)
        requires 0 <= rate <= SPEED_LIMIT, 0 <= dt <= MAX_DT;
}

/// `rate * dt / ONE` for a bounded rate and tick.
pub fn scale(rate: i64, dt: i64) -> (r: i64)
    requires
        0 <= rate <= SPEED_LIMIT,
        0 <= dt <= MAX_DT,
    ensures
        r == scaled(rate as int, dt as int),
        0 <= r <= 0x1_0000_0000_0000,
{
    proof {
        lemma_scaled_bounds(rate as int, dt as int);
    }
    floor_div(rate * dt, ONE)
}

impl Maddy {
    /// Starts a tick: edge detection of the jump and dash keys, the jump
    /// buffer and grace timers, the dash effect timer, and the refill of
    /// charges on the ground. Returns whether charges were refilled.
    pub fn update_timers(&mut self, inp: Input, dt: i64, grounded: bool) -> (recharged: bool)
        requires
            step_ok(*old(self), inp, dt as int),
        ensures
            *final(self) == timers_spec(*old(self), inp, dt as int, grounded),
            recharged == recharges(*old(self), grounded),
            final(self).wf(),
    {
        let jump = inp.jump && !self.jump_last_tick;
        self.jump_last_tick = inp.jump;
        if jump {
            self.jump_buffer = JUMP_BUFFER_TIME;
        } else if self.jump_buffer > 0 {
            self.jump_buffer = self.jump_buffer - dt;
        }
        self.dash_last_tick = inp.dash;
        let mut recharged = false;
        if grounded {
            self.jump_grace = JUMP_GRACE_TIME;
            if self.dashes < self.max_dashes {
                recharged = true;
                self.dashes = self.max_dashes;
            }
        } else if self.jump_grace > 0 {
            self.jump_grace = self.jump_grace - dt;
        }
        if self.dash_effect_time > 0 {
            self.dash_effect_time = self.dash_effect_time - dt;
        }
        recharged
    }

    /// One tick of the dashing state.
    pub fn dash_step(&mut self, dt: i64)
        requires
            old(self).wf(),
            0 <= dt <= MAX_DT,
            old(self).dash_time > 0,
        ensures
            *final(self) == dash_step_spec(*old(self), dt as int),
            final(self).wf(),
    {
        self.dash_time = self.dash_time - dt;
        let ax = scale(self.dash_accel.x, dt);
        let ay = scale(self.dash_accel.y, dt);
        proof {
            lemma_approach_between(self.speed.x as int, self.dash_target.x as int, ax as int);
            lemma_approach_between(self.speed.y as int, self.dash_target.y as int, ay as int);
        }
        self.speed.x = approach(self.speed.x, self.dash_target.x, ax);
        self.speed.y = approach(self.speed.y, self.dash_target.y, ay);
    }

    /// Horizontal acceleration and facing.
    pub fn run(&mut self, inp: Input, dt: i64, grounded: bool)
        requires
            step_ok(*old(self), inp, dt as int),
        ensures
            *final(self) == run_spec(*old(self), inp, dt as int, grounded),
            final(self).wf(),
    {
        let accel = if grounded {
            GROUND_ACCEL
        } else {
            AIR_ACCEL
        };
        let sx = self.speed.x;
        let nx = if sx > MAX_SPEED || sx < -MAX_SPEED {
            let target = if sx > 0 {
                MAX_SPEED
            } else {
                -MAX_SPEED
            };
            let amount = scale(DECEL, dt);
            proof {
                lemma_approach_between(sx as int, target as int, amount as int);
            }
            approach(sx, target, amount)
        } else {
            let amount = scale(accel, dt);
            proof {
                lemma_approach_between(sx as int, inp.x * MAX_SPEED, amount as int);
            }
            approach(sx, inp.x as i64 * MAX_SPEED, amount)
        };
        self.speed.x = nx;
        if nx != 0 {
            self.flip_x = nx < 0;
        }
    }

    /// Gravity while airborne.
    pub fn fall(&mut self, dt: i64, grounded: bool, sliding: bool)
        requires
            old(self).wf(),
            0 <= dt <= MAX_DT,
        ensures
            *final(self) == fall_spec(*old(self), dt as int, grounded, sliding),
            final(self).wf(),
    {
        let sy = self.speed.y;
        let gravity = if -HALF_GRAVITY_THRESHOLD <= sy && sy <= HALF_GRAVITY_THRESHOLD {
            HALF_GRAVITY
        } else {
            GRAVITY
        };
        let max_fall = if sliding {
            MAX_FALL_SLIDE
        } else {
            MAX_FALL
        };
        if !grounded {
            let amount = scale(gravity, dt);
            proof {
                lemma_approach_between(sy as int, max_fall as int, amount as int);
            }
            self.speed.y = approach(sy, max_fall, amount);
        }
    }

    /// Performs a buffered jump, if one is due; `wall` is the side of a wall
    /// within reach, used when the grace timer has run out.
    pub fn jump(&mut self, wall: i32) -> (cue: Option<Sound>)
        requires
            old(self).wf(),
            -1 <= wall <= 1,
        ensures
            (*final(self), cue_seq(cue)) == jump_spec(*old(self), wall as int),
            final(self).wf(),
    {
        if self.jump_buffer > 0 && self.jump_grace > 0 {
            self.jump_buffer = 0;
            self.jump_grace = 0;
            self.speed.y = JUMP_SPEED;
            Some(Sound::Jump)
        } else if self.jump_buffer > 0 && wall != 0 {
            self.jump_buffer = 0;
            self.speed.y = JUMP_SPEED;
            self.speed.x = -(wall as i64) * WALL_JUMP_SPEED;
            Some(Sound::WallJump)
        } else {
            None
        }
    }

    /// Starts a dash when `pressed`, or reports the denial with no charge.
    pub fn trigger_dash(&mut self, inp: Input, pressed: bool) -> (cue: Option<Sound>)
        requires
            old(self).wf(),
            inp.valid(),
        ensures
            (*final(self), cue_seq(cue)) == dash_trigger_spec(*old(self), inp, pressed),
            final(self).wf(),
    {
        if !pressed {
            return None;
        }
        if self.dashes == 0 {
            return Some(Sound::DashDenied);
        }
        self.dashes = self.dashes - 1;
        self.dash_time = DASH_TIME;
        self.dash_effect_time = DASH_EFFECT_TIME;
        let ix = inp.x as i64;
        let iy = inp.y as i64;
        let v = if ix != 0 && iy != 0 {
            Vector2 { x: ix * DASH_DIAGONAL_SPEED, y: iy * DASH_DIAGONAL_SPEED }
        } else if iy != 0 {
            Vector2 { x: 0, y: iy * DASH_SPEED }
        } else if ix != 0 {
            Vector2 { x: ix * DASH_SPEED, y: 0 }
        } else {
            Vector2 { x: if self.flip_x { -DASH_SPEED } else { DASH_SPEED }, y: 0 }
        };
        self.speed = v;
        self.dash_target.x = if v.x > 0 {
            DASH_TARGET
        } else if v.x < 0 {
            -DASH_TARGET
        } else {
            0
        };
        self.dash_target.y = if v.y < 0 {
            -DASH_UPWARDS_TARGET
        } else if v.y > 0 {
            DASH_TARGET
        } else {
            0
        };
        self.dash_accel.x = if v.y != 0 {
            DASH_DIAGONAL_ACCEL
        } else {
            DASH_ACCEL
        };
        self.dash_accel.y = if v.x != 0 {
            DASH_DIAGONAL_ACCEL
        } else {
            DASH_ACCEL
        };
        Some(Sound::Dash)
    }

    /// Advances the run cycle and picks the sprite.
    pub fn animate(&mut self, inp: Input, dt: i64, grounded: bool, pushing: bool)
        requires
            step_ok(*old(self), inp, dt as int),
        ensures
            *final(self) == animate_spec(*old(self), inp, dt as int, grounded, pushing),
            final(self).wf(),
    {
        let offset = (self.sprite_offset + dt) % RUN_CYCLE;
        self.sprite_offset = offset;
        self.sprite = if !grounded {
            if pushing {
                5
            } else {
                3
            }
        } else if inp.down {
            6
        } else if inp.up {
            7
        } else if self.speed.x == 0 || inp.x == 0 {
            1
        } else {
            proof {
                assert(offset / RUN_FRAME < 4);
            }
            1 + (offset / RUN_FRAME) as u8
        };
    }
}

/// The cue sequence of an optional cue.
pub open spec fn cue_seq(cue: Option<Sound>) -> Seq<Sound> {
    match cue {
        Some(s) => seq![s],
        None => seq![],
    }
}

} // verus!
