use libceleste::world::probe_hitbox;
use libceleste::{Maddy, NoCollision, Probe, Sound, Terrain, Vector2};
use libceleste::{KEYFLAG_DASH, KEYFLAG_JUMP, KEYFLAG_LEFT, KEYFLAG_RIGHT, KEYFLAG_UP};

const FRAME_US: u32 = 33_333;

/// Solid below `floor` (when set), and at or right of `right_wall`, at or left
/// of `left_wall` (when set).
struct Room {
    floor: Option<i32>,
    left_wall: Option<i32>,
    right_wall: Option<i32>,
}

impl Terrain for Room {
    fn solid(&self, p: Probe) -> bool {
        self.floor.map_or(false, |f| p.y >= f)
            || self.left_wall.map_or(false, |w| p.x <= w)
            || self.right_wall.map_or(false, |w| p.x >= w)
    }

    fn is_solid(&self, p: Probe) -> bool {
        self.solid(p)
    }
}

fn floor_at(top: i32) -> Room {
    Room { floor: Some(top), left_wall: None, right_wall: None }
}

fn count(events: &[Sound], cue: Sound) -> usize {
    events.iter().filter(|s| **s == cue).count()
}

/// An actor standing on a floor at y = 8, with its charge.
fn standing() -> (Maddy, Room) {
    let mut m = Maddy::CLST_Init();
    m.dashes = 1;
    (m, floor_at(8))
}

#[test]
fn scenario_jump_from_ground() {
    let (mut m, room) = standing();
    m.jump_grace = 6000;
    let events = m.CLST_Tick(&room, KEYFLAG_JUMP, FRAME_US);
    assert_eq!(m.speed.y, -2000);
    assert_eq!(m.jump_buffer, 0);
    assert_eq!(m.jump_grace, 0);
    assert_eq!(events, vec![Sound::Jump]);
    assert_eq!(m.y, -2);
    assert!(m.was_on_ground);
}

#[test]
fn scenario_dash_facing_right_without_direction() {
    let mut m = Maddy::CLST_Init();
    m.dashes = 1;
    let events = m.CLST_Tick(&NoCollision, KEYFLAG_DASH, FRAME_US);
    assert_eq!(m.speed, Vector2::new(5000, 0));
    assert_eq!(m.dash_target, Vector2::new(2000, 0));
    assert_eq!(m.dash_accel, Vector2::new(1500, 1061));
    assert_eq!(m.dashes, 0);
    assert_eq!(m.dash_time, 4000);
    assert_eq!(m.dash_effect_time, 10000);
    assert_eq!(events, vec![Sound::Dash]);
    assert_eq!(m.x, 5);
}

#[test]
fn scenario_dash_denied_without_charge() {
    let mut m = Maddy::CLST_Init();
    let mut plain = m;
    let events = m.CLST_Tick(&NoCollision, KEYFLAG_DASH, FRAME_US);
    let plain_events = plain.CLST_Tick(&NoCollision, 0, FRAME_US);
    assert_eq!(events, vec![Sound::DashDenied]);
    assert!(plain_events.is_empty());
    assert_eq!(m.dashes, 0);
    assert_eq!(m.dash_time, 0);
    assert_eq!(m.speed, plain.speed);
    assert_eq!(m.speed, Vector2::new(0, 105));
}

#[test]
fn scenario_wall_slide_caps_fall() {
    let wall = Room { floor: None, left_wall: None, right_wall: Some(7) };
    let mut m = Maddy::CLST_Init();
    for _ in 0..20 {
        m.CLST_Tick(&wall, KEYFLAG_RIGHT, FRAME_US);
    }
    assert_eq!(m.speed.y, 600);
    assert_eq!(m.x, 0);
    assert_eq!(m.sprite, 5);

    let mut free = Maddy::CLST_Init();
    for _ in 0..20 {
        free.CLST_Tick(&NoCollision, KEYFLAG_RIGHT, FRAME_US);
    }
    assert_eq!(free.speed.y, 2000);
}

#[test]
fn held_jump_jumps_once() {
    let (mut m, room) = standing();
    let mut jumps = 0;
    for _ in 0..60 {
        let events = m.CLST_Tick(&room, KEYFLAG_JUMP, FRAME_US);
        jumps += count(&events, Sound::Jump) + count(&events, Sound::WallJump);
    }
    assert_eq!(jumps, 1);
    assert!(m.jump_last_tick);
}

#[test]
fn released_and_pressed_again_jumps_twice() {
    let (mut m, room) = standing();
    let mut jumps = 0;
    for i in 0..120 {
        let keys = if i == 0 || i == 60 { KEYFLAG_JUMP } else { 0 };
        let events = m.CLST_Tick(&room, keys, FRAME_US);
        jumps += count(&events, Sound::Jump);
    }
    assert_eq!(jumps, 2);
}

#[test]
fn landing_recharges_once() {
    let mut m = Maddy::CLST_Init();
    let room = floor_at(8);
    let events = m.CLST_Tick(&room, 0, FRAME_US);
    assert_eq!(events, vec![Sound::DashRecharge]);
    assert_eq!(m.dashes, 1);
    let events = m.CLST_Tick(&room, 0, FRAME_US);
    assert!(events.is_empty());
    assert_eq!(m.dashes, 1);
}

#[test]
fn landing_with_dash_refills_then_dashes() {
    let mut m = Maddy::CLST_Init();
    let room = floor_at(8);
    let events = m.CLST_Tick(&room, KEYFLAG_DASH | KEYFLAG_UP, FRAME_US);
    assert_eq!(events, vec![Sound::DashRecharge, Sound::Dash]);
    assert_eq!(m.dashes, 0);
    assert_eq!(m.speed, Vector2::new(0, -5000));
    assert_eq!(m.dash_target, Vector2::new(0, -1500));
}

#[test]
fn dash_slows_toward_target_without_overshoot() {
    let mut m = Maddy::CLST_Init();
    m.dashes = 1;
    m.CLST_Tick(&NoCollision, KEYFLAG_DASH, FRAME_US);
    let mut speeds = vec![m.speed.x];
    let mut timers = vec![m.dash_time];
    for _ in 0..4 {
        m.CLST_Tick(&NoCollision, KEYFLAG_DASH, FRAME_US);
        speeds.push(m.speed.x);
        timers.push(m.dash_time);
    }
    assert_eq!(speeds, vec![5000, 3500, 2000, 2000, 2000]);
    assert_eq!(timers, vec![4000, 3000, 2000, 1000, 0]);
    assert_eq!(m.dashes, 0);
}

#[test]
fn diagonal_dash_scales_both_axes() {
    let mut m = Maddy::CLST_Init();
    m.dashes = 1;
    m.CLST_Tick(&NoCollision, KEYFLAG_DASH | KEYFLAG_LEFT | KEYFLAG_UP, FRAME_US);
    assert_eq!(m.speed, Vector2::new(-3536, -3536));
    assert_eq!(m.dash_target, Vector2::new(-2000, -1500));
    assert_eq!(m.dash_accel, Vector2::new(1061, 1061));
    assert!(m.flip_x);
}

#[test]
fn dash_faces_left_after_moving_left() {
    let mut m = Maddy::CLST_Init();
    m.dashes = 1;
    m.CLST_Tick(&NoCollision, KEYFLAG_LEFT, FRAME_US);
    assert!(m.flip_x);
    m.CLST_Tick(&NoCollision, KEYFLAG_DASH, FRAME_US);
    assert_eq!(m.speed.y, 0);
    assert_eq!(m.dash_target.x, -2000);
}

#[test]
fn wall_jump_off_left_wall() {
    let wall = Room { floor: None, left_wall: Some(-2), right_wall: None };
    let mut m = Maddy::CLST_Init();
    let events = m.CLST_Tick(&wall, KEYFLAG_JUMP, FRAME_US);
    assert_eq!(events, vec![Sound::WallJump]);
    assert_eq!(m.speed, Vector2::new(2000, -2000));
    assert_eq!(m.jump_buffer, 0);
    assert_eq!((m.x, m.y), (2, -2));
}

#[test]
fn wall_jump_off_right_wall() {
    let wall = Room { floor: None, left_wall: None, right_wall: Some(9) };
    let mut m = Maddy::CLST_Init();
    let events = m.CLST_Tick(&wall, KEYFLAG_JUMP, FRAME_US);
    assert_eq!(events, vec![Sound::WallJump]);
    assert_eq!(m.speed, Vector2::new(-2000, -2000));
}

#[test]
fn jump_without_ground_or_wall_stays_buffered() {
    let mut m = Maddy::CLST_Init();
    let events = m.CLST_Tick(&NoCollision, KEYFLAG_JUMP, FRAME_US);
    assert!(events.is_empty());
    assert_eq!(m.jump_buffer, 4000);
    m.CLST_Tick(&NoCollision, KEYFLAG_JUMP, FRAME_US);
    assert_eq!(m.jump_buffer, 3000);
}

#[test]
fn coyote_time_allows_late_jump() {
    let (mut m, room) = standing();
    m.CLST_Tick(&room, 0, FRAME_US);
    assert_eq!(m.jump_grace, 6000);
    let mut air = m;
    air.CLST_Tick(&NoCollision, 0, FRAME_US);
    assert_eq!(air.jump_grace, 5000);
    let events = air.CLST_Tick(&NoCollision, KEYFLAG_JUMP, FRAME_US);
    assert_eq!(events, vec![Sound::Jump]);
    assert_eq!(air.speed.y, -2000);
}

#[test]
fn early_press_is_honored_on_landing() {
    let mut m = Maddy::CLST_Init();
    m.dashes = 1;
    m.y = -3;
    m.speed.y = 1000;
    let room = floor_at(8);
    let events = m.CLST_Tick(&room, KEYFLAG_JUMP, FRAME_US);
    assert!(events.is_empty());
    assert_eq!(m.y, -2);
    m.CLST_Tick(&room, KEYFLAG_JUMP, FRAME_US);
    assert_eq!(m.y, 0);
    let events = m.CLST_Tick(&room, KEYFLAG_JUMP, FRAME_US);
    assert_eq!(events, vec![Sound::Jump]);
}

#[test]
fn falling_stops_on_floor_without_overlap() {
    let mut m = Maddy::CLST_Init();
    m.y = -40;
    let room = floor_at(8);
    for _ in 0..60 {
        m.CLST_Tick(&room, 0, FRAME_US);
        assert!(!probe_hitbox(&room, m.x, m.y, m.hitbox, 0, 0, m.speed));
    }
    assert_eq!(m.y, 0);
    assert_eq!(m.speed.y, 0);
    assert!(m.was_on_ground);
}

#[test]
fn running_into_wall_stops_without_overlap() {
    let wall = Room { floor: Some(8), left_wall: None, right_wall: Some(20) };
    let mut m = Maddy::CLST_Init();
    for _ in 0..60 {
        m.CLST_Tick(&wall, KEYFLAG_RIGHT, FRAME_US);
        assert!(!probe_hitbox(&wall, m.x, m.y, m.hitbox, 0, 0, m.speed));
    }
    assert_eq!(m.x, 13);
}

#[test]
fn charges_stay_within_maximum() {
    let room = floor_at(8);
    let mut m = Maddy::CLST_Init();
    let keys = [0u8, KEYFLAG_DASH, 0, KEYFLAG_DASH | KEYFLAG_JUMP, KEYFLAG_RIGHT, KEYFLAG_DASH];
    for i in 0..90 {
        m.CLST_Tick(&room, keys[i % keys.len()], FRAME_US);
        assert!(m.dashes <= m.max_dashes);
        assert!(m.is_well_formed());
    }
}

#[test]
fn run_accelerates_to_top_speed() {
    let (mut m, room) = standing();
    m.CLST_Tick(&room, KEYFLAG_RIGHT, FRAME_US);
    assert_eq!(m.speed.x, 600);
    assert_eq!(m.x, 1);
    assert_eq!(m.rem.x, -400);
    m.CLST_Tick(&room, KEYFLAG_RIGHT, FRAME_US);
    assert_eq!(m.speed.x, 1000);
    assert_eq!(m.x, 2);
    assert_eq!(m.rem.x, -400);
    m.CLST_Tick(&room, 0, FRAME_US);
    assert_eq!(m.speed.x, 400);
}

#[test]
fn running_faster_than_top_speed_decelerates() {
    let (mut m, room) = standing();
    m.speed.x = -3000;
    m.CLST_Tick(&room, KEYFLAG_RIGHT, FRAME_US);
    assert_eq!(m.speed.x, -2850);
    assert!(m.flip_x);
}

#[test]
fn sprites_by_state() {
    let (mut m, room) = standing();
    m.CLST_Tick(&room, 0, FRAME_US);
    assert_eq!(m.sprite, 1);
    m.CLST_Tick(&room, libceleste::KEYFLAG_DOWN, FRAME_US);
    assert_eq!(m.sprite, 6);
    m.CLST_Tick(&room, KEYFLAG_UP, FRAME_US);
    assert_eq!(m.sprite, 7);
    let mut air = Maddy::CLST_Init();
    air.CLST_Tick(&NoCollision, 0, FRAME_US);
    assert_eq!(air.sprite, 3);
}

#[test]
fn run_cycle_frames() {
    let (mut m, room) = standing();
    let mut sprites = vec![];
    for _ in 0..6 {
        m.CLST_Tick(&room, KEYFLAG_RIGHT, FRAME_US);
        sprites.push(m.sprite);
    }
    assert_eq!(sprites, vec![1, 1, 1, 2, 2, 2]);
    assert_eq!(m.sprite_offset, 6000);
}

#[test]
fn hair_follows_anchor() {
    let mut m = Maddy::CLST_Init();
    m.CLST_Tick(&NoCollision, 0, FRAME_US);
    assert_eq!(m.hair[0], Vector2::new(1996, 3493));
    assert_eq!(m.hair[1], Vector2::new(0, 499));
    assert_eq!(m.hair[4], Vector2::new(0, 499));
}

#[test]
fn hair_never_passes_its_leader_on_long_ticks() {
    let mut m = Maddy::CLST_Init();
    m.CLST_Tick(&NoCollision, 0, 1_000_000);
    assert_eq!(m.hair[0], Vector2::new(2000, m.y as i64 * 1000 + 3500));
    assert!(m.is_well_formed());
}

#[test]
fn elapsed_time_accumulates_microseconds() {
    let mut m = Maddy::CLST_Init();
    m.CLST_Tick(&NoCollision, 0, FRAME_US);
    m.CLST_Tick(&NoCollision, 0, FRAME_US);
    assert_eq!(m.time_elapsed, 66_666);
}

#[test]
fn zero_length_tick_moves_nothing() {
    let (mut m, room) = standing();
    m.speed = Vector2::new(700, -300);
    let events = m.CLST_Tick(&room, KEYFLAG_RIGHT, 0);
    assert!(events.is_empty());
    assert_eq!((m.x, m.y), (0, 0));
    assert_eq!(m.speed, Vector2::new(700, -300));
}

#[test]
fn edge_of_world_blocks_movement() {
    let mut m = Maddy::CLST_Init();
    m.x = 0x4000_0000 - 1;
    m.speed.x = 5000;
    m.dash_time = 3000;
    m.dash_target = Vector2::new(5000, 0);
    m.CLST_Tick(&NoCollision, 0, FRAME_US);
    assert_eq!(m.x, 0x4000_0000);
    assert_eq!(m.speed.x, 0);
    assert!(m.is_well_formed());
}
