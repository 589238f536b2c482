//! The host's world, seen through point queries, and the hitbox probe.
use vstd::prelude::*;

use crate::geometry::{Hitbox, Vector2};

verus! {

/// Positions stay within `-POS_LIMIT ..= POS_LIMIT`; the edge of that span
/// blocks movement like a wall.
pub const POS_LIMIT: i32 = 0x4000_0000;

/// Bound on each hitbox field, so that every probed cell fits in `i32`.
pub const HITBOX_LIMIT: i32 = 0x10_0000;

/// Bound on the direction of a probe.
pub const DIR_LIMIT: i32 = 4;

/// One query put to the world: is the cell `(x, y)` solid for an actor that
/// tests the direction `(dir_x, dir_y)` while moving at `speed`?
///
/// The direction and speed let a host build one-way platforms that are solid
/// only when the actor falls onto them.
#[derive(Clone, Copy, Debug, PartialEq, Eq)]
pub struct Probe {
    pub x: i32,
    pub y: i32,
    pub dir_x: i32,
    pub dir_y: i32,
    /// The actor's velocity at the time of the query, in thousandths of a
    /// pixel per tick.
    pub speed: Vector2,
}

/// Solid geometry as the host sees it.
///
/// An implementation answers each probe from the probe alone: the same probe
/// gets the same answer for the whole tick, which is what `solid` names.
pub trait Terrain {
    /// Whether the probed cell is solid.
    spec fn solid(&self, p: Probe) -> bool;

    /// Answers one probe.
    fn is_solid(&self, p: Probe) -> (r: bool)
        ensures
            r == self.solid(p),
    ;
}

/// A world with nothing solid in it: what an actor sees when the host has
/// installed no collision query.
#[derive(Clone, Copy, Debug, PartialEq, Eq)]
pub struct NoCollision;

impl Terrain for NoCollision {
    open spec fn solid(&self, p: Probe) -> bool {
        false
    }

    fn is_solid(&self, p: Probe) -> (r: bool) {
        false
    }
}

/// Whether the cell `(i, j)` lies in `hb` placed at `(px, py)` and shifted by
/// `(dx, dy)`.
pub open spec fn in_box(px: int, py: int, hb: Hitbox, dx: int, dy: int, i: int, j: int) -> bool {
    &&& px + dx + hb.x <= i < px + dx + hb.x + hb.w
    &&& py + dy + hb.y <= j < py + dy + hb.y + hb.h
}

/// The probe for cell `(i, j)` in direction `(dx, dy)` at velocity `speed`.
pub open spec fn probe_of(i: i32, j: i32, dx: i32, dy: i32, speed: Vector2) -> Probe {
    Probe { x: i, y: j, dir_x: dx, dir_y: dy, speed }
}

/// Whether the hitbox `hb` at `(px, py)`, shifted by `(dx, dy)`, covers a cell
/// that `world` reports solid.
pub open spec fn hits<W: Terrain>(
    world: &W,
    px: int,
    py: int,
    hb: Hitbox,
    dx: i32,
    dy: i32,
    speed: Vector2,
) -> bool {
    exists|i: i32, j: i32|
        in_box(px, py, hb, dx as int, dy as int, i as int, j as int) && #[trigger] world.solid(
            probe_of(i, j, dx, dy, speed),
        )
}

/// Whether a position and hitbox lie within the bounds that keep every probed
/// cell inside `i32`.
pub open spec fn placeable(px: int, py: int, hb: Hitbox) -> bool {
    &&& -POS_LIMIT <= px <= POS_LIMIT
    &&& -POS_LIMIT <= py <= POS_LIMIT
    &&& -HITBOX_LIMIT <= hb.x <= HITBOX_LIMIT
    &&& -HITBOX_LIMIT <= hb.y <= HITBOX_LIMIT
    &&& -HITBOX_LIMIT <= hb.w <= HITBOX_LIMIT
    &&& -HITBOX_LIMIT <= hb.h <= HITBOX_LIMIT
}

/// Tests every cell of the shifted hitbox against the world, stopping at the
/// first solid one.
pub fn probe_hitbox<W: Terrain>(
    world: &W,
    px: i32,
    py: i32,
    hb: Hitbox,
    dx: i32,
    dy: i32,
    speed: Vector2,
) -> (r: bool)
    requires
        placeable(px as int, py as int, hb),
        -DIR_LIMIT <= dx <= DIR_LIMIT,
        -DIR_LIMIT <= dy <= DIR_LIMIT,
    ensures
        r == hits(world, px as int, py as int, hb, dx, dy, speed),
{
    let x0: i32 = px + dx + hb.x;
    let x1: i32 = x0 + hb.w;
    let y0: i32 = py + dy + hb.y;
    let y1: i32 = y0 + hb.h;
    let mut i: i32 = x0;
    while i < x1
        invariant
            x0 == px + dx + hb.x,
            x1 == x0 + hb.w,
            y0 == py + dy + hb.y,
            y1 == y0 + hb.h,
            x0 <= i,
            i <= x1 || i == x0,
            forall|a: i32, b: i32|
                x0 <= a < i && in_box(px as int, py as int, hb, dx as int, dy as int, a as int, b as int)
                    ==> !#[trigger] world.solid(probe_of(a, b, dx, dy, speed)),
        decreases x1 - i,
    {
        let mut j: i32 = y0;
        while j < y1
            invariant
                x0 == px + dx + hb.x,
                x1 == x0 + hb.w,
                y0 == py + dy + hb.y,
                y1 == y0 + hb.h,
                x0 <= i < x1,
                y0 <= j,
                j <= y1 || j == y0,
                forall|a: i32, b: i32|
                    x0 <= a < i && in_box(px as int, py as int, hb, dx as int, dy as int, a as int, b as int)
                        ==> !#[trigger] world.solid(probe_of(a, b, dx, dy, speed)),
                forall|b: i32| y0 <= b < j ==> !#[trigger] world.solid(probe_of(i, b, dx, dy, speed)),
            decreases y1 - j,
        {
            let p = Probe { x: i, y: j, dir_x: dx, dir_y: dy, speed };
            if world.is_solid(p) {
                assert(in_box(px as int, py as int, hb, dx as int, dy as int, i as int, j as int));
                assert(world.solid(probe_of(i, j, dx, dy, speed)));
                return true;
            }
            j = j + 1;
        }
        i = i + 1;
    }
    false
}

} // verus!
