//! The hair: a chain of points trailing the actor's head.
use vstd::prelude::*;

use crate::actor::{bounded, Maddy, EASING_LIMIT, HAIR_COUNT, HAIR_LIMIT, MAX_DT};
use crate::fixed::{floor_div, ONE};
use crate::geometry::Vector2;

verus! {

/// The point that the first hair point follows: behind the head, by facing,
/// and lower while ducking.
pub open spec fn anchor(a: Maddy, down: bool) -> Vector2 {
    Vector2 {
        x: (a.x * ONE + 4000 + if a.flip_x {
            2000int
        } else {
            -2000int
        }) as i64,
        y: (a.y * ONE + if down {
            4000int
        } else {
            3000int
        }) as i64,
    }
}

/// `v` moved toward `target` by the part `f / e` of the gap, rounded down.
pub open spec fn ease(v: int, target: int, f: int, e: int) -> int {
    v + (target - v) * f / e
}

/// The part of the gap closed in one tick, out of `a.hair_easing`: the tick
/// length, capped so that no point passes the one it follows.
pub open spec fn hair_step(a: Maddy, dt: int) -> int {
    if dt < a.hair_easing {
        dt
    } else {
        a.hair_easing as int
    }
}

/// Point `k` after one tick: it follows the anchor (`k == 0`) or the previous
/// point as it was before this tick, half a pixel below it (but never below
/// the bound on hair points).
pub open spec fn hair_point(a: Maddy, down: bool, dt: int, k: int) -> Vector2 {
    let lead = if k == 0 {
        anchor(a, down)
    } else {
        a.hair[k - 1]
    };
    let f = hair_step(a, dt);
    let e = a.hair_easing as int;
    Vector2 {
        x: ease(a.hair[k].x as int, lead.x as int, f, e) as i64,
        y: ease(a.hair[k].y as int, below(lead.y as int), f, e) as i64,
    }
}

/// Half a pixel below `y`, within the bound on hair points.
pub open spec fn below(y: int) -> int {
    if y + 500 > HAIR_LIMIT {
        HAIR_LIMIT as int
    } else {
        y + 500
    }
}

/// The actor after its hair follows for one tick.
pub open spec fn hair_spec(a: Maddy, down: bool, dt: int) -> Maddy {
    Maddy {
        hair: [
            hair_point(a, down, dt, 0),
            hair_point(a, down, dt, 1),
            hair_point(a, down, dt, 2),
            hair_point(a, down, dt, 3),
            hair_point(a, down, dt, 4),
        ],
        ..a
    }
}

proof fn lemma_ease_between(v: int, target: int, f: int, e: int)
    requires
        0 <= f <= e,
        e > 0,
    ensures
        v <= target ==> v <= ease(v, target, f, e) <= target,
        target <= v ==> target <= ease(v, target, f, e) <= v,
{
    let d = target - v;
    if d >= 0 {
        assert(0 <= d * f <= d * e) by (nonlinear_arith) requires d >= 0, 0 <= f <= e;
        vstd::arithmetic::div_mod::lemma_div_is_ordered(d * f, d * e, e);
        vstd::arithmetic::div_mod::lemma_div_multiples_vanish(d, e);
        assert(d * e / e == d) by (nonlinear_arith) requires e > 0, (e * d) / e == d;
        vstd::arithmetic::div_mod::lemma_div_pos_is_pos(d * f, e);
    } else {
        assert(d * e <= d * f <= 0) by (nonlinear_arith) requires d < 0, 0 <= f <= e;
        vstd::arithmetic::div_mod::lemma_div_is_ordered(d * e, d * f, e);
        vstd::arithmetic::div_mod::lemma_div_multiples_vanish(d, e);
        assert(d * e / e == d) by (nonlinear_arith) requires e > 0, (e * d) / e == d;
        vstd::arithmetic::div_mod::lemma_div_is_ordered(d * f, 0, e);
    }
}

/// Eases one coordinate.
fn ease_toward(v: i64, target: i64, f: i64, e: i64) -> (r: i64)
    requires
        -HAIR_LIMIT <= v <= HAIR_LIMIT,
        -HAIR_LIMIT <= target <= HAIR_LIMIT,
        0 <= f <= e <= EASING_LIMIT,
        e > 0,
    ensures
        r == ease(v as int, target as int, f as int, e as int),
        -HAIR_LIMIT <= r <= HAIR_LIMIT,
{
    proof {
        let d = target - v;
        assert(-2 * HAIR_LIMIT * EASING_LIMIT <= d * f <= 2 * HAIR_LIMIT * EASING_LIMIT) by (nonlinear_arith)
            requires -2 * HAIR_LIMIT <= d <= 2 * HAIR_LIMIT, 0 <= f <= EASING_LIMIT;
        lemma_ease_between(v as int, target as int, f as int, e as int);
    }
    v + floor_div((target - v) * f, e)
}

impl Maddy {
    /// Moves each hair point toward the point it follows.
    pub fn update_hair(&mut self, down: bool, dt: i64)
        requires
            old(self).wf(),
            0 <= dt <= MAX_DT,
        ensures
            *final(self) == hair_spec(*old(self), down, dt as int),
            final(self).wf(),
    {
        let ghost a = *self;
        let e = self.hair_easing;
        let f = if dt < e {
            dt
        } else {
            e
        };
        let fx: i64 = if self.flip_x {
            2000
        } else {
            -2000
        };
        let dy: i64 = if down {
            4000
        } else {
            3000
        };
        let mut lead = Vector2 { x: self.x as i64 * ONE + 4000 + fx, y: self.y as i64 * ONE + dy };
        let mut k: usize = 0;
        while k < HAIR_COUNT
            invariant
                k <= 5,
                0 <= dt <= MAX_DT,
                a.wf(),
                forall|i: int| 0 <= i < 5 ==> bounded(#[trigger] self.hair[i], HAIR_LIMIT as int),
                e == a.hair_easing,
                f == hair_step(a, dt as int),
                *self == (Maddy { hair: self.hair, ..a }),
                forall|i: int| 0 <= i < k ==> self.hair[i] == hair_point(a, down, dt as int, i),
                forall|i: int| k <= i < 5 ==> self.hair[i] == a.hair[i],
                k == 0 ==> lead == anchor(a, down),
                k > 0 ==> lead == a.hair[k - 1],
                bounded(lead, HAIR_LIMIT as int),
            decreases 5 - k,
        {
            let node = self.hair[k];
            assert(bounded(a.hair[k as int], HAIR_LIMIT as int));
            let nx = ease_toward(node.x, lead.x, f, e);
            let ty = if lead.y > HAIR_LIMIT - 500 {
                HAIR_LIMIT
            } else {
                lead.y + 500
            };
            let ny = ease_toward(node.y, ty, f, e);
            self.hair[k] = Vector2 { x: nx, y: ny };
            lead = node;
            k = k + 1;
        }
        assert(self.hair =~= hair_spec(a, down, dt as int).hair);
    }
}

} // verus!
