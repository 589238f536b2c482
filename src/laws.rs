//! What holds of every tick, and of runs of ticks.
use vstd::prelude::*;

use crate::actor::{Maddy, DASH_TIME};
use crate::control::{
    countdown, dash_pressed, dash_trigger_spec, fall_spec, jump_spec, recharges, run_spec, scaled,
    sign, timers_spec,
};
use crate::fixed::{lemma_approach_between, ONE};
use crate::geometry::Vector2;
use crate::input::{input_of, pressed, KEYFLAG_JUMP};
use crate::motion::{
    abs, accumulated, move_x_spec, move_y_spec, slide_x, slide_y, touches, whole_pixels,
};
use crate::sound::{count_jumps, count_of, Sound};
use crate::tick::{clocked, control_spec, normal_spec, tick_spec, ticks_of, wall_side};
use crate::world::{hits, Terrain, POS_LIMIT};

verus! {

/// A run of ticks: the actor after the ticks with keys `keys[i]` and lengths
/// `us[i]`, and all their cues in order.
pub open spec fn ticks_spec<W: Terrain>(world: &W, a: Maddy, keys: Seq<u8>, us: Seq<u32>) -> (
    Maddy,
    Seq<Sound>,
)
    decreases keys.len(),
{
    if keys.len() == 0 || us.len() == 0 {
        (a, seq![])
    } else {
        let t = tick_spec(world, a, keys[0], us[0]);
        let r = ticks_spec(world, t.0, keys.drop_first(), us.drop_first());
        (r.0, t.1 + r.1)
    }
}

/// Whether `r` lies between `v` and `t`, both included.
pub open spec fn between(v: int, r: int, t: int) -> bool {
    &&& v <= t ==> v <= r <= t
    &&& t <= v ==> t <= r <= v
}

proof fn lemma_slide_x_frame<W: Terrain>(world: &W, a: Maddy, n: nat, s: i32)
    requires
        -1 <= s <= 1,
    ensures
        ({
            let r = slide_x(world, a, n, s);
            &&& r == (Maddy { x: r.x, speed: r.speed, rem: r.rem, ..a })
            &&& r.speed.y == a.speed.y
            &&& r.x != a.x ==> sign(r.x - a.x) == s && s != 0
            &&& r.x != a.x ==> !hits(world, r.x - s, a.y as int, a.hitbox, s, 0, a.speed)
        }),
    decreases n,
{
    if n > 0 && -POS_LIMIT <= a.x + s <= POS_LIMIT && !touches(world, a, s, 0) {
        let b = Maddy { x: (a.x + s) as i32, ..a };
        lemma_slide_x_frame(world, b, (n - 1) as nat, s);
    }
}

proof fn lemma_slide_y_frame<W: Terrain>(world: &W, a: Maddy, n: nat, s: i32)
    requires
        -1 <= s <= 1,
    ensures
        ({
            let r = slide_y(world, a, n, s);
            &&& r == (Maddy { y: r.y, speed: r.speed, rem: r.rem, ..a })
            &&& r.y != a.y ==> sign(r.y - a.y) == s && s != 0
            &&& r.y != a.y ==> !hits(world, a.x as int, r.y - s, a.hitbox, 0, s, a.speed)
        }),
    decreases n,
{
    if n > 0 && -POS_LIMIT <= a.y + s <= POS_LIMIT && !touches(world, a, 0, s) {
        let b = Maddy { y: (a.y + s) as i32, ..a };
        lemma_slide_y_frame(world, b, (n - 1) as nat, s);
    }
}

proof fn lemma_moves_frame<W: Terrain>(world: &W, c: Maddy, dt: int)
    ensures
        ({
            let mx = move_x_spec(world, c, dt);
            let my = move_y_spec(world, mx, dt);
            &&& mx == (Maddy { x: mx.x, speed: mx.speed, rem: mx.rem, ..c })
            &&& my == (Maddy { y: my.y, speed: my.speed, rem: my.rem, ..mx })
            &&& mx.x != c.x ==> !hits(
                world,
                mx.x - sign(mx.x - c.x),
                c.y as int,
                c.hitbox,
                sign(mx.x - c.x) as i32,
                0,
                c.speed,
            )
            &&& my.y != mx.y ==> !hits(
                world,
                mx.x as int,
                my.y - sign(my.y - mx.y),
                mx.hitbox,
                0,
                sign(my.y - mx.y) as i32,
                mx.speed,
            )
        }),
{
    let acc = accumulated(c.rem.x as int, c.speed.x as int, dt);
    let m = whole_pixels(acc);
    let b = Maddy { rem: Vector2 { x: (acc - m * ONE) as i64, ..c.rem }, ..c };
    lemma_slide_x_frame(world, b, abs(m) as nat, sign(m) as i32);
    let mx = move_x_spec(world, c, dt);
    let acc2 = accumulated(mx.rem.y as int, mx.speed.y as int, dt);
    let m2 = whole_pixels(acc2);
    let b2 = Maddy { rem: Vector2 { y: (acc2 - m2 * ONE) as i64, ..mx.rem }, ..mx };
    lemma_slide_y_frame(world, b2, abs(m2) as nat, sign(m2) as i32);
}

/// The state after a tick differs from the state after its control phase
/// only in position, velocity, remainder and hair.
proof fn lemma_tick_frame<W: Terrain>(world: &W, a: Maddy, keys: u8, us: u32)
    ensures
        ({
            let c = control_spec(world, clocked(a, us), input_of(keys), ticks_of(us));
            let f = tick_spec(world, a, keys, us).0;
            f == (Maddy { x: f.x, y: f.y, speed: f.speed, rem: f.rem, hair: f.hair, ..c.0 })
        }),
{
    let c = control_spec(world, clocked(a, us), input_of(keys), ticks_of(us));
    lemma_moves_frame(world, c.0, ticks_of(us));
}

/// Dash charges never exceed their maximum: a tick keeps the bound, and the
/// maximum itself never changes.
pub proof fn lemma_charges_bounded<W: Terrain>(world: &W, a: Maddy, keys: u8, us: u32)
    requires
        a.dashes <= a.max_dashes,
    ensures
        tick_spec(world, a, keys, us).0.dashes <= tick_spec(world, a, keys, us).0.max_dashes,
        tick_spec(world, a, keys, us).0.max_dashes == a.max_dashes,
{
    lemma_tick_frame(world, a, keys, us);
}

/// Movement enters only free cells, one axis at a time: when the horizontal
/// sweep of a tick moved the actor, every cell of its hitbox where that sweep
/// ended was reported free for the last step; likewise for the vertical
/// sweep, which follows the horizontal one.
pub proof fn lemma_moves_into_free_cells<W: Terrain>(world: &W, a: Maddy, keys: u8, us: u32)
    ensures
        ({
            let dt = ticks_of(us);
            let c = control_spec(world, clocked(a, us), input_of(keys), dt).0;
            let mx = move_x_spec(world, c, dt);
            let f = tick_spec(world, a, keys, us).0;
            &&& f.x == mx.x
            &&& mx.y == c.y
            &&& f.x != c.x ==> !hits(
                world,
                f.x - sign(f.x - c.x),
                c.y as int,
                c.hitbox,
                sign(f.x - c.x) as i32,
                0,
                c.speed,
            )
            &&& f.y != c.y ==> !hits(
                world,
                f.x as int,
                f.y - sign(f.y - c.y),
                f.hitbox,
                0,
                sign(f.y - c.y) as i32,
                mx.speed,
            )
        }),
{
    let dt = ticks_of(us);
    let c = control_spec(world, clocked(a, us), input_of(keys), dt).0;
    lemma_moves_frame(world, c, dt);
}

proof fn lemma_count_jumps_add(s1: Seq<Sound>, s2: Seq<Sound>)
    ensures
        count_jumps(s1 + s2) == count_jumps(s1) + count_jumps(s2),
    decreases s2.len(),
{
    if s2.len() == 0 {
        assert(s1 + s2 =~= s1);
    } else {
        lemma_count_jumps_add(s1, s2.drop_last());
        assert((s1 + s2).drop_last() =~= s1 + s2.drop_last());
    }
}

proof fn lemma_count_of_add(s1: Seq<Sound>, s2: Seq<Sound>, cue: Sound)
    ensures
        count_of(s1 + s2, cue) == count_of(s1, cue) + count_of(s2, cue),
    decreases s2.len(),
{
    if s2.len() == 0 {
        assert(s1 + s2 =~= s1);
    } else {
        lemma_count_of_add(s1, s2.drop_last(), cue);
        assert((s1 + s2).drop_last() =~= s1 + s2.drop_last());
    }
}

proof fn lemma_counts_single(x: Sound)
    ensures
        count_jumps(seq![x]) == if x is Jump || x is WallJump {
            1nat
        } else {
            0nat
        },
        forall|cue: Sound| count_of(seq![x], cue) == if x == cue { 1nat } else { 0nat },
        count_jumps(Seq::<Sound>::empty()) == 0,
        forall|cue: Sound| count_of(Seq::<Sound>::empty(), cue) == 0,
{
    assert(seq![x].drop_last() =~= Seq::<Sound>::empty());
    reveal_with_fuel(count_jumps, 2);
    assert forall|cue: Sound| count_of(seq![x], cue) == if x == cue { 1nat } else { 0nat } by {
        reveal_with_fuel(count_of, 2);
    }
}

/// The jump buffer after the timers of a tick.
pub open spec fn buffered(a: Maddy, keys: u8, us: u32) -> i64 {
    timers_spec(clocked(a, us), input_of(keys), ticks_of(us), false).jump_buffer
}

/// 1 for a positive jump buffer, else 0.
pub open spec fn pending(jump_buffer: i64) -> nat {
    if jump_buffer > 0 {
        1
    } else {
        0
    }
}

/// Within one tick, a jump needs a buffered press and consumes it: the jumps
/// of the tick and a press still buffered after it number at most one, and
/// none without a press buffered after the timers.
proof fn lemma_tick_jumps<W: Terrain>(world: &W, a: Maddy, keys: u8, us: u32)
    ensures
        count_jumps(tick_spec(world, a, keys, us).1) + pending(
            tick_spec(world, a, keys, us).0.jump_buffer,
        ) <= pending(buffered(a, keys, us)),
        tick_spec(world, a, keys, us).0.jump_last_tick == input_of(keys).jump,
{
    let inp = input_of(keys);
    let dt = ticks_of(us);
    let a0 = clocked(a, us);
    let g = touches(world, a0, 0, 1);
    let t = timers_spec(a0, inp, dt, g);
    let e0 = if recharges(a0, g) {
        seq![Sound::DashRecharge]
    } else {
        seq![]
    };
    lemma_tick_frame(world, a, keys, us);
    lemma_counts_single(Sound::DashRecharge);
    lemma_counts_single(Sound::Jump);
    lemma_counts_single(Sound::WallJump);
    lemma_counts_single(Sound::Dash);
    lemma_counts_single(Sound::DashDenied);
    let c = control_spec(world, a0, inp, dt);
    if t.dash_time > 0 {
        lemma_count_jumps_add(e0, Seq::<Sound>::empty());
    } else {
        let n = normal_spec(world, t, inp, dt, g, dash_pressed(a0, inp));
        let a1 = run_spec(t, inp, dt, g);
        let sliding = inp.x != 0 && touches(world, a1, inp.x, 0);
        let a2 = fall_spec(a1, dt, g, sliding);
        let wall = if a2.jump_buffer > 0 && a2.jump_grace <= 0 {
            wall_side(world, a2)
        } else {
            0
        };
        let j = jump_spec(a2, wall);
        let d = dash_trigger_spec(j.0, inp, dash_pressed(a0, inp));
        assert(n.1 == j.1 + d.1);
        lemma_count_jumps_add(j.1, d.1);
        lemma_count_jumps_add(e0, n.1);
        assert(count_jumps(d.1) == 0);
    }
}

proof fn lemma_held_jump_pending<W: Terrain>(world: &W, a: Maddy, keys: Seq<u8>, us: Seq<u32>)
    requires
        forall|i: int| 0 <= i < keys.len() ==> pressed(#[trigger] keys[i], KEYFLAG_JUMP),
    ensures
        count_jumps(ticks_spec(world, a, keys, us).1) + pending(ticks_spec(world, a, keys, us).0.jump_buffer)
            <= if a.jump_last_tick {
            pending(a.jump_buffer)
        } else {
            1
        },
    decreases keys.len(),
{
    if keys.len() == 0 || us.len() == 0 {
        lemma_counts_single(Sound::Jump);
    } else {
        let t = tick_spec(world, a, keys[0], us[0]);
        let r = ticks_spec(world, t.0, keys.drop_first(), us.drop_first());
        lemma_tick_jumps(world, a, keys[0], us[0]);
        assert(pressed(keys[0], KEYFLAG_JUMP));
        assert(input_of(keys[0]).jump);
        assert(a.jump_last_tick ==> buffered(a, keys[0], us[0]) == countdown(a.jump_buffer, ticks_of(us[0])));
        lemma_held_jump_pending(world, t.0, keys.drop_first(), us.drop_first());
        lemma_count_jumps_add(t.1, r.1);
    }
}

/// Holding the jump key down over any run of ticks jumps at most once: only
/// the press itself is buffered, and a jump consumes it.
pub proof fn lemma_held_jump_jumps_once<W: Terrain>(world: &W, a: Maddy, keys: Seq<u8>, us: Seq<u32>)
    requires
        forall|i: int| 0 <= i < keys.len() ==> pressed(#[trigger] keys[i], KEYFLAG_JUMP),
    ensures
        count_jumps(ticks_spec(world, a, keys, us).1) <= 1,
{
    lemma_held_jump_pending(world, a, keys, us);
}

/// The charges held after the timers of a tick: the maximum when the actor
/// touches the ground, else those it had.
pub open spec fn held_charges<W: Terrain>(world: &W, a: Maddy) -> u8 {
    if recharges(a, touches(world, a, 0, 1)) {
        a.max_dashes
    } else {
        a.dashes
    }
}

/// Landing refills the charges: the refill cue plays exactly once in a tick
/// that starts on the ground with charges missing, and never otherwise; the
/// charges are then at their maximum unless a dash took one in the same tick.
pub proof fn lemma_landing_recharges<W: Terrain>(world: &W, a: Maddy, keys: u8, us: u32)
    requires
        a.dashes <= a.max_dashes,
    ensures
        ({
            let g = touches(world, a, 0, 1);
            let r = tick_spec(world, a, keys, us);
            &&& count_of(r.1, Sound::DashRecharge) == if g && a.dashes < a.max_dashes {
                1nat
            } else {
                0nat
            }
            &&& r.0.was_on_ground == g
            &&& g && !dash_pressed(a, input_of(keys)) ==> r.0.dashes == a.max_dashes
        }),
{
    let inp = input_of(keys);
    let dt = ticks_of(us);
    let a0 = clocked(a, us);
    let g = touches(world, a0, 0, 1);
    assert(g == touches(world, a, 0, 1));
    let t = timers_spec(a0, inp, dt, g);
    let e0 = if recharges(a0, g) {
        seq![Sound::DashRecharge]
    } else {
        seq![]
    };
    lemma_tick_frame(world, a, keys, us);
    lemma_counts_single(Sound::DashRecharge);
    lemma_counts_single(Sound::Jump);
    lemma_counts_single(Sound::WallJump);
    lemma_counts_single(Sound::Dash);
    lemma_counts_single(Sound::DashDenied);
    if t.dash_time > 0 {
        lemma_count_of_add(e0, Seq::<Sound>::empty(), Sound::DashRecharge);
    } else {
        let n = normal_spec(world, t, inp, dt, g, dash_pressed(a0, inp));
        let a1 = run_spec(t, inp, dt, g);
        let sliding = inp.x != 0 && touches(world, a1, inp.x, 0);
        let a2 = fall_spec(a1, dt, g, sliding);
        let wall = if a2.jump_buffer > 0 && a2.jump_grace <= 0 {
            wall_side(world, a2)
        } else {
            0
        };
        let j = jump_spec(a2, wall);
        let d = dash_trigger_spec(j.0, inp, dash_pressed(a0, inp));
        assert(n.1 == j.1 + d.1);
        lemma_count_of_add(j.1, d.1, Sound::DashRecharge);
        lemma_count_of_add(e0, n.1, Sound::DashRecharge);
    }
}

/// A dash pressed outside a dash takes exactly one of the charges held, with
/// its cue, and runs for the fixed dash time; with no charge held it is
/// denied, with its own cue, and the charges stay at zero.
pub proof fn lemma_dash_takes_one_charge<W: Terrain>(world: &W, a: Maddy, keys: u8, us: u32)
    requires
        a.dash_time <= 0,
        dash_pressed(a, input_of(keys)),
    ensures
        ({
            let held = held_charges(world, a);
            let r = tick_spec(world, a, keys, us);
            &&& held > 0 ==> r.0.dashes == held - 1 && r.0.dash_time == DASH_TIME && count_of(
                r.1,
                Sound::Dash,
            ) == 1 && count_of(r.1, Sound::DashDenied) == 0
            &&& held == 0 ==> r.0.dashes == 0 && count_of(r.1, Sound::DashDenied) == 1 && count_of(
                r.1,
                Sound::Dash,
            ) == 0
        }),
{
    let inp = input_of(keys);
    let dt = ticks_of(us);
    let a0 = clocked(a, us);
    let g = touches(world, a0, 0, 1);
    assert(g == touches(world, a, 0, 1));
    let t = timers_spec(a0, inp, dt, g);
    let e0 = if recharges(a0, g) {
        seq![Sound::DashRecharge]
    } else {
        seq![]
    };
    lemma_tick_frame(world, a, keys, us);
    lemma_counts_single(Sound::DashRecharge);
    lemma_counts_single(Sound::Jump);
    lemma_counts_single(Sound::WallJump);
    lemma_counts_single(Sound::Dash);
    lemma_counts_single(Sound::DashDenied);
    let n = normal_spec(world, t, inp, dt, g, dash_pressed(a0, inp));
    let a1 = run_spec(t, inp, dt, g);
    let sliding = inp.x != 0 && touches(world, a1, inp.x, 0);
    let a2 = fall_spec(a1, dt, g, sliding);
    let wall = if a2.jump_buffer > 0 && a2.jump_grace <= 0 {
        wall_side(world, a2)
    } else {
        0
    };
    let j = jump_spec(a2, wall);
    let d = dash_trigger_spec(j.0, inp, dash_pressed(a0, inp));
    assert(n.1 == j.1 + d.1);
    lemma_count_of_add(j.1, d.1, Sound::Dash);
    lemma_count_of_add(e0, n.1, Sound::Dash);
    lemma_count_of_add(j.1, d.1, Sound::DashDenied);
    lemma_count_of_add(e0, n.1, Sound::DashDenied);
}

/// During a dash the velocity moves toward the dash target on each axis and
/// never past it, the target stays, the dash timer runs down and no charge is
/// taken.
pub proof fn lemma_dash_approaches_target<W: Terrain>(world: &W, a: Maddy, keys: u8, us: u32)
    requires
        a.wf(),
        a.dash_time > 0,
    ensures
        ({
            let c = control_spec(world, clocked(a, us), input_of(keys), ticks_of(us)).0;
            &&& between(a.speed.x as int, c.speed.x as int, a.dash_target.x as int)
            &&& between(a.speed.y as int, c.speed.y as int, a.dash_target.y as int)
            &&& c.dash_target == a.dash_target
            &&& c.dash_time == a.dash_time - ticks_of(us)
            &&& c.dashes == held_charges(world, a)
        }),
{
    let dt = ticks_of(us);
    let a0 = clocked(a, us);
    let t = timers_spec(a0, input_of(keys), dt, touches(world, a0, 0, 1));
    assert(dt >= 0);
    assert(0 <= scaled(t.dash_accel.x as int, dt)) by (nonlinear_arith)
        requires t.dash_accel.x >= 0, dt >= 0;
    assert(0 <= scaled(t.dash_accel.y as int, dt)) by (nonlinear_arith)
        requires t.dash_accel.y >= 0, dt >= 0;
    lemma_approach_between(
        t.speed.x as int,
        t.dash_target.x as int,
        scaled(t.dash_accel.x as int, dt),
    );
    lemma_approach_between(
        t.speed.y as int,
        t.dash_target.y as int,
        scaled(t.dash_accel.y as int, dt),
    );
}

} // verus!


