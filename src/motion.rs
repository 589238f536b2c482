//! The movement integrator: sub-pixel accumulation and pixel-by-pixel sweeps
//! that stop at solid cells, one axis at a time.
use vstd::prelude::*;

use crate::actor::{Maddy, MAX_DT, SPEED_LIMIT};
use crate::control::sign;
use crate::fixed::{floor_div, ONE};
use crate::geometry::Vector2;
use crate::world::{hits, probe_hitbox, Terrain, POS_LIMIT};

verus! {

/// Whether the actor's hitbox, shifted by `(dx, dy)`, covers a solid cell.
pub open spec fn touches<W: Terrain>(world: &W, a: Maddy, dx: i32, dy: i32) -> bool {
    hits(world, a.x as int, a.y as int, a.hitbox, dx, dy, a.speed)
}

/// `|v|`.
pub open spec fn abs(v: int) -> int {
    if v < 0 {
        -v
    } else {
        v
    }
}

/// Up to `n` pixel steps of `step` along X; the first blocked step stops the
/// actor on that axis, clearing its horizontal velocity and remainder.
pub open spec fn slide_x<W: Terrain>(world: &W, a: Maddy, n: nat, step: i32) -> Maddy
    decreases n,
{
    if n == 0 {
        a
    } else if -POS_LIMIT <= a.x + step <= POS_LIMIT && !touches(world, a, step, 0) {
        slide_x(world, Maddy { x: (a.x + step) as i32, ..a }, (n - 1) as nat, step)
    } else {
        Maddy { speed: Vector2 { x: 0, ..a.speed }, rem: Vector2 { x: 0, ..a.rem }, ..a }
    }
}

/// Up to `n` pixel steps of `step` along Y, as `slide_x` does along X.
pub open spec fn slide_y<W: Terrain>(world: &W, a: Maddy, n: nat, step: i32) -> Maddy
    decreases n,
{
    if n == 0 {
        a
    } else if -POS_LIMIT <= a.y + step <= POS_LIMIT && !touches(world, a, 0, step) {
        slide_y(world, Maddy { y: (a.y + step) as i32, ..a }, (n - 1) as nat, step)
    } else {
        Maddy { speed: Vector2 { y: 0, ..a.speed }, rem: Vector2 { y: 0, ..a.rem }, ..a }
    }
}

/// The remainder after adding one tick's travel: it holds the whole pixels
/// to move plus the fraction left over.
pub open spec fn accumulated(rem: int, speed: int, dt: int) -> int {
    rem + speed * dt / ONE as int
}

/// The whole pixels in a remainder, rounded to nearest (halves up).
pub open spec fn whole_pixels(acc: int) -> int {
    (acc + 500) / ONE as int
}

/// Horizontal movement for one tick.
pub open spec fn move_x_spec<W: Terrain>(world: &W, a: Maddy, dt: int) -> Maddy {
    let acc = accumulated(a.rem.x as int, a.speed.x as int, dt);
    let m = whole_pixels(acc);
    let b = Maddy { rem: Vector2 { x: (acc - m * ONE) as i64, ..a.rem }, ..a };
    slide_x(world, b, abs(m) as nat, sign(m) as i32)
}

/// Vertical movement for one tick.
pub open spec fn move_y_spec<W: Terrain>(world: &W, a: Maddy, dt: int) -> Maddy {
    let acc = accumulated(a.rem.y as int, a.speed.y as int, dt);
    let m = whole_pixels(acc);
    let b = Maddy { rem: Vector2 { y: (acc - m * ONE) as i64, ..a.rem }, ..a };
    slide_y(world, b, abs(m) as nat, sign(m) as i32)
}

/// Splits `rem + speed * dt / ONE` into whole pixels and a remainder within
/// half a pixel.
fn split_travel(rem: i64, speed: i64, dt: i64) -> (r: (i64, i64))
    requires
        -500 <= rem < 500,
        -SPEED_LIMIT <= speed <= SPEED_LIMIT,
        0 <= dt <= MAX_DT,
    ensures
        r.0 == whole_pixels(accumulated(rem as int, speed as int, dt as int)),
        r.1 == accumulated(rem as int, speed as int, dt as int) - r.0 * ONE,
        -500 <= r.1 < 500,
        -0x1_0000_0000_0000 <= r.0 <= 0x1_0000_0000_0000,
{
    proof {
        assert(-SPEED_LIMIT * MAX_DT <= speed * dt <= SPEED_LIMIT * MAX_DT) by (nonlinear_arith)
            requires -SPEED_LIMIT <= speed <= SPEED_LIMIT, 0 <= dt <= MAX_DT;
    }
    let d = floor_div(speed * dt, ONE);
    let acc = rem + d;
    let m = floor_div(acc + 500, ONE);
    proof {
        vstd::arithmetic::div_mod::lemma_fundamental_div_mod(acc + 500, 1000);
    }
    (m, acc - m * ONE)
}

impl Maddy {
    /// Moves the actor horizontally for one tick.
    pub fn move_x<W: Terrain>(&mut self, world: &W, dt: i64)
        requires
            old(self).wf(),
            0 <= dt <= MAX_DT,
        ensures
            *final(self) == move_x_spec(world, *old(self), dt as int),
            final(self).wf(),
    {
        let (m, rem) = split_travel(self.rem.x, self.speed.x, dt);
        self.rem.x = rem;
        let step: i32 = if m > 0 {
            1
        } else if m < 0 {
            -1
        } else {
            0
        };
        let n: i64 = if m >= 0 {
            m
        } else {
            -m
        };
        let ghost target = slide_x(world, *self, n as nat, step);
        let mut k: i64 = 0;
        let mut blocked = false;
        while k < n && !blocked
            invariant
                0 <= k <= n,
                -1 <= step <= 1,
                self.wf(),
                !blocked ==> slide_x(world, *self, (n - k) as nat, step) == target,
                blocked ==> *self == target,
            decreases n - k,
        {
            let nx: i64 = self.x as i64 + step as i64;
            if -(POS_LIMIT as i64) <= nx && nx <= POS_LIMIT as i64 && !probe_hitbox(
                world,
                self.x,
                self.y,
                self.hitbox,
                step,
                0,
                self.speed,
            ) {
                self.x = nx as i32;
            } else {
                self.speed.x = 0;
                self.rem.x = 0;
                blocked = true;
            }
            k = k + 1;
        }
    }

    /// Moves the actor vertically for one tick.
    pub fn move_y<W: Terrain>(&mut self, world: &W, dt: i64)
        requires
            old(self).wf(),
            0 <= dt <= MAX_DT,
        ensures
            *final(self) == move_y_spec(world, *old(self), dt as int),
            final(self).wf(),
    {
        let (m, rem) = split_travel(self.rem.y, self.speed.y, dt);
        self.rem.y = rem;
        let step: i32 = if m > 0 {
            1
        } else if m < 0 {
            -1
        } else {
            0
        };
        let n: i64 = if m >= 0 {
            m
        } else {
            -m
        };
        let ghost target = slide_y(world, *self, n as nat, step);
        let mut k: i64 = 0;
        let mut blocked = false;
        while k < n && !blocked
            invariant
                0 <= k <= n,
                -1 <= step <= 1,
                self.wf(),
                !blocked ==> slide_y(world, *self, (n - k) as nat, step) == target,
                blocked ==> *self == target,
            decreases n - k,
        {
            let ny: i64 = self.y as i64 + step as i64;
            if -(POS_LIMIT as i64) <= ny && ny <= POS_LIMIT as i64 && !probe_hitbox(
                world,
                self.x,
                self.y,
                self.hitbox,
                0,
                step,
                self.speed,
            ) {
                self.y = ny as i32;
            } else {
                self.speed.y = 0;
                self.rem.y = 0;
                blocked = true;
            }
            k = k + 1;
        }
    }
}

} // verus!
