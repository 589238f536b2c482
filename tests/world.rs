use libceleste::world::{probe_hitbox, NoCollision, Probe, Terrain};
use libceleste::{Hitbox, Vector2};

struct Floor {
    top: i32,
}

impl Terrain for Floor {
    fn solid(&self, p: Probe) -> bool {
        p.y >= self.top
    }

    fn is_solid(&self, p: Probe) -> bool {
        self.solid(p)
    }
}

/// A platform that is solid only for a falling actor probing downward.
struct OneWay {
    top: i32,
}

impl Terrain for OneWay {
    fn solid(&self, p: Probe) -> bool {
        p.y == self.top && p.dir_y > 0 && p.speed.y > 0
    }

    fn is_solid(&self, p: Probe) -> bool {
        self.solid(p)
    }
}

const HB: Hitbox = Hitbox { x: 1, y: 3, w: 6, h: 5 };

#[test]
fn probe_finds_floor_below() {
    let floor = Floor { top: 8 };
    assert!(!probe_hitbox(&floor, 0, 0, HB, 0, 0, Vector2::new(0, 0)));
    assert!(probe_hitbox(&floor, 0, 0, HB, 0, 1, Vector2::new(0, 0)));
}

#[test]
fn probe_without_world_is_never_solid() {
    assert!(!probe_hitbox(&NoCollision, 0, 0, HB, 0, 1, Vector2::new(0, 0)));
    assert!(!probe_hitbox(&NoCollision, 5, -7, HB, -3, 0, Vector2::new(10, 10)));
}

#[test]
fn probe_passes_direction_and_speed() {
    let platform = OneWay { top: 8 };
    assert!(probe_hitbox(&platform, 0, 0, HB, 0, 1, Vector2::new(0, 500)));
    assert!(!probe_hitbox(&platform, 0, 0, HB, 0, 1, Vector2::new(0, -500)));
    assert!(!probe_hitbox(&platform, 0, 0, HB, 1, 0, Vector2::new(0, 500)));
}

#[test]
fn probe_of_empty_hitbox_is_never_solid() {
    let floor = Floor { top: -100 };
    let empty = Hitbox { x: 0, y: 0, w: 0, h: 5 };
    assert!(!probe_hitbox(&floor, 0, 0, empty, 0, 1, Vector2::new(0, 0)));
    let negative = Hitbox { x: 0, y: 0, w: -3, h: 5 };
    assert!(!probe_hitbox(&floor, 0, 0, negative, 0, 1, Vector2::new(0, 0)));
}
