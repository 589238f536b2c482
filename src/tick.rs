//! One simulation step of the actor.
use vstd::prelude::*;

use crate::actor::{Maddy, MAX_DT, WALL_JUMP_CHECK_DISTANCE};
use crate::control::{
    cue_seq, dash_pressed, dash_step_spec, dash_trigger_spec, fall_spec, jump_spec, recharges,
    run_spec, animate_spec, timers_spec, step_ok,
};
use crate::hair::hair_spec;
use crate::input::{input_of, Input};
use crate::motion::{move_x_spec, move_y_spec, touches};
use crate::sound::Sound;
use crate::world::{probe_hitbox, Terrain};

verus! {

/// Thousandths of a tick in `us` microseconds, at thirty ticks per second,
/// rounded to nearest (halves up).
pub open spec fn ticks_of(us: u32) -> int {
    (us * 3 + 50) / 100
}

/// Converts an elapsed time in microseconds to thousandths of a tick: the one
/// place where the tick rate enters.
pub fn ticks_of_micros(us: u32) -> (r: i64)
    ensures
        r == ticks_of(us),
        0 <= r <= MAX_DT,
{
    ((us as u64 * 3 + 50) / 100) as i64
}

/// The clock after `us` more microseconds, stopping at its largest value.
pub open spec fn elapsed_after(t: u64, us: u32) -> u64 {
    if t + us > u64::MAX {
        u64::MAX
    } else {
        (t + us) as u64
    }
}

/// The side of a wall within wall-jump reach: -1 left (tested first), 1
/// right, 0 none.
pub open spec fn wall_side<W: Terrain>(world: &W, a: Maddy) -> int {
    if touches(world, a, (-WALL_JUMP_CHECK_DISTANCE) as i32, 0) {
        -1
    } else if touches(world, a, WALL_JUMP_CHECK_DISTANCE, 0) {
        1
    } else {
        0
    }
}

/// The normal (not dashing) state for one tick: running, gravity with the
/// wall-slide cap when pushing into a wall, a buffered jump, a dash on a key
/// press, and the sprite.
pub open spec fn normal_spec<W: Terrain>(
    world: &W,
    a: Maddy,
    inp: Input,
    dt: int,
    grounded: bool,
    pressed: bool,
) -> (Maddy, Seq<Sound>) {
    let a1 = run_spec(a, inp, dt, grounded);
    let sliding = inp.x != 0 && touches(world, a1, inp.x, 0);
    let a2 = fall_spec(a1, dt, grounded, sliding);
    let wall = if a2.jump_buffer > 0 && a2.jump_grace <= 0 {
        wall_side(world, a2)
    } else {
        0
    };
    let j = jump_spec(a2, wall);
    let d = dash_trigger_spec(j.0, inp, pressed);
    let pushing = !grounded && touches(world, d.0, inp.x, 0);
    (animate_spec(d.0, inp, dt, grounded, pushing), j.1 + d.1)
}

/// Everything in a tick before movement: ground contact, timers, then the
/// dashing or the normal state.
pub open spec fn control_spec<W: Terrain>(world: &W, a: Maddy, inp: Input, dt: int) -> (
    Maddy,
    Seq<Sound>,
) {
    let grounded = touches(world, a, 0, 1);
    let t = timers_spec(a, inp, dt, grounded);
    let e0 = if recharges(a, grounded) {
        seq![Sound::DashRecharge]
    } else {
        seq![]
    };
    let s = if t.dash_time > 0 {
        (dash_step_spec(t, dt), Seq::<Sound>::empty())
    } else {
        normal_spec(world, t, inp, dt, grounded, dash_pressed(a, inp))
    };
    (Maddy { was_on_ground: grounded, ..s.0 }, e0 + s.1)
}

/// The actor before control: its clock advanced.
pub open spec fn clocked(a: Maddy, us: u32) -> Maddy {
    Maddy { time_elapsed: elapsed_after(a.time_elapsed, us), ..a }
}

/// The actor after control and movement, before the hair follows.
pub open spec fn moved<W: Terrain>(world: &W, a: Maddy, keys: u8, us: u32) -> Maddy {
    let c = control_spec(world, clocked(a, us), input_of(keys), ticks_of(us)).0;
    move_y_spec(world, move_x_spec(world, c, ticks_of(us)), ticks_of(us))
}

/// One tick: the actor after it, and the cues it plays, in order.
pub open spec fn tick_spec<W: Terrain>(world: &W, a: Maddy, keys: u8, us: u32) -> (Maddy, Seq<Sound>) {
    let c = control_spec(world, clocked(a, us), input_of(keys), ticks_of(us));
    (hair_spec(moved(world, a, keys, us), input_of(keys).down, ticks_of(us)), c.1)
}

impl Maddy {
    /// The normal state for one tick; its cues are appended to `events`.
    pub fn normal_step<W: Terrain>(
        &mut self,
        world: &W,
        inp: Input,
        dt: i64,
        grounded: bool,
        pressed: bool,
        events: &mut Vec<Sound>,
    )
        requires
            step_ok(*old(self), inp, dt as int),
        ensures
            *final(self) == normal_spec(world, *old(self), inp, dt as int, grounded, pressed).0,
            final(events)@ == old(events)@ + normal_spec(
                world,
                *old(self),
                inp,
                dt as int,
                grounded,
                pressed,
            ).1,
            final(self).wf(),
    {
        self.run(inp, dt, grounded);
        let sliding = inp.x != 0 && probe_hitbox(world, self.x, self.y, self.hitbox, inp.x, 0, self.speed);
        self.fall(dt, grounded, sliding);
        let wall: i32 = if self.jump_buffer > 0 && self.jump_grace <= 0 {
            if probe_hitbox(world, self.x, self.y, self.hitbox, -WALL_JUMP_CHECK_DISTANCE, 0, self.speed) {
                -1
            } else if probe_hitbox(world, self.x, self.y, self.hitbox, WALL_JUMP_CHECK_DISTANCE, 0, self.speed) {
                1
            } else {
                0
            }
        } else {
            0
        };
        let ghost e_before = events@;
        let c1 = self.jump(wall);
        if let Some(c) = c1 {
            events.push(c);
        }
        let c2 = self.trigger_dash(inp, pressed);
        if let Some(c) = c2 {
            events.push(c);
        }
        assert(events@ =~= e_before + (cue_seq(c1) + cue_seq(c2)));
        let pushing = !grounded && probe_hitbox(world, self.x, self.y, self.hitbox, inp.x, 0, self.speed);
        self.animate(inp, dt, grounded, pushing);
    }

    /// Everything in a tick before movement. Returns the cues played.
    pub fn control<W: Terrain>(&mut self, world: &W, inp: Input, dt: i64) -> (events: Vec<Sound>)
        requires
            step_ok(*old(self), inp, dt as int),
        ensures
            (*final(self), events@) == control_spec(world, *old(self), inp, dt as int),
            final(self).wf(),
    {
        let ghost a = *self;
        let grounded = probe_hitbox(world, self.x, self.y, self.hitbox, 0, 1, self.speed);
        let pressed = inp.dash && !self.dash_last_tick;
        let mut events: Vec<Sound> = Vec::new();
        if self.update_timers(inp, dt, grounded) {
            events.push(Sound::DashRecharge);
        }
        if self.dash_time > 0 {
            self.dash_step(dt);
        } else {
            self.normal_step(world, inp, dt, grounded, pressed, &mut events);
        }
        self.was_on_ground = grounded;
        assert(events@ =~= control_spec(world, a, inp, dt as int).1);
        events
    }

    /// Advances the actor by one step of `delta_us` microseconds with the keys
    /// in `keys` held, against the solid cells of `world`. Returns the audio
    /// cues of the step, in the order they happened.
    #[allow(non_snake_case)]
    pub fn CLST_Tick<W: Terrain>(&mut self, world: &W, keys: u8, delta_us: u32) -> (events: Vec<Sound>)
        requires
            old(self).wf(),
        ensures
            (*final(self), events@) == tick_spec(world, *old(self), keys, delta_us),
            final(self).wf(),
    {
        self.time_elapsed = if self.time_elapsed > u64::MAX - delta_us as u64 {
            u64::MAX
        } else {
            self.time_elapsed + delta_us as u64
        };
        let inp = Input::from_keys(keys);
        let dt = ticks_of_micros(delta_us);
        let events = self.control(world, inp, dt);
        self.move_x(world, dt);
        self.move_y(world, dt);
        self.update_hair(inp.down, dt);
        events
    }
}

} // verus!
