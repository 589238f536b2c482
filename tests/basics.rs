use libceleste::fixed::{approach, floor_div};
use libceleste::input::Input;
use libceleste::tick::ticks_of_micros;
use libceleste::{Color, Hitbox, Maddy, Sound, Vector2};
use libceleste::{KEYFLAG_DASH, KEYFLAG_DOWN, KEYFLAG_JUMP, KEYFLAG_LEFT, KEYFLAG_RIGHT, KEYFLAG_UP};

#[test]
fn init_gives_default_actor() {
    let m = Maddy::CLST_Init();
    assert_eq!(m.hitbox, Hitbox { x: 1, y: 3, w: 6, h: 5 });
    assert_eq!(m.max_dashes, 1);
    assert_eq!(m.dashes, 0);
    assert_eq!((m.x, m.y), (0, 0));
    assert_eq!(m.speed, Vector2::new(0, 0));
    assert_eq!(m.rem, Vector2::new(0, 0));
    assert_eq!(m.jump_buffer, 0);
    assert_eq!(m.jump_grace, 0);
    assert_eq!(m.dash_time, 0);
    assert!(!m.was_on_ground);
    assert!(!m.flip_x);
    assert_eq!(m.hair, [Vector2::new(0, 0); 5]);
    assert_eq!(m.hair_easing, 1002);
    assert!(m.is_well_formed());
    m.CLST_Drop();
}

#[test]
fn well_formedness_rejects_excess_charges() {
    let mut m = Maddy::CLST_Init();
    m.dashes = 2;
    assert!(!m.is_well_formed());
    m.max_dashes = 2;
    assert!(m.is_well_formed());
    m.rem.x = 500;
    assert!(!m.is_well_formed());
}

#[test]
fn color_new_keeps_channels() {
    assert_eq!(Color::new(1, 2, 3, 4), Color { r: 1, g: 2, b: 3, a: 4 });
}

#[test]
fn hair_color_by_charges() {
    let mut m = Maddy::CLST_Init();
    assert_eq!(m.CLST_HairColor(false), Color::new(0x29, 0xad, 0xff, 0xff));
    m.dashes = 1;
    assert_eq!(m.CLST_HairColor(false), Color::new(0xff, 0x00, 0x4d, 0xff));
    m.max_dashes = 2;
    m.dashes = 2;
    m.time_elapsed = 50_000;
    assert_eq!(m.CLST_HairColor(false), Color::new(0x00, 0xe4, 0x36, 0xff));
    m.time_elapsed = 150_000;
    assert_eq!(m.CLST_HairColor(false), Color::new(0xff, 0xf1, 0xe8, 0xff));
    assert_eq!(m.CLST_HairColor(true), Color::new(0x00, 0xe4, 0x36, 0xff));
}

#[test]
fn hair_color_white_while_dashing() {
    let mut m = Maddy::CLST_Init();
    m.dash_time = 2000;
    assert_eq!(m.CLST_HairColor(false), Color::new(0xff, 0xf1, 0xe8, 0xff));
    assert_eq!(m.CLST_HairColor(true), Color::new(0x29, 0xad, 0xff, 0xff));
}

#[test]
fn sound_ids() {
    assert_eq!(Sound::Jump.id(), 1);
    assert_eq!(Sound::WallJump.id(), 2);
    assert_eq!(Sound::Dash.id(), 3);
    assert_eq!(Sound::DashDenied.id(), 9);
    assert_eq!(Sound::DashRecharge.id(), 54);
}

#[test]
fn input_bit_layout() {
    assert_eq!(KEYFLAG_LEFT, 0b1000_0000);
    assert_eq!(KEYFLAG_UP, 0b0100_0000);
    assert_eq!(KEYFLAG_DOWN, 0b0010_0000);
    assert_eq!(KEYFLAG_RIGHT, 0b0001_0000);
    assert_eq!(KEYFLAG_DASH, 0b0000_0010);
    assert_eq!(KEYFLAG_JUMP, 0b0000_0001);
}

#[test]
fn input_decoding() {
    let i = Input::from_keys(KEYFLAG_LEFT | KEYFLAG_RIGHT | KEYFLAG_UP | KEYFLAG_DOWN);
    assert_eq!((i.x, i.y), (1, -1));
    assert!(i.up && i.down && !i.jump && !i.dash);
    let i = Input::from_keys(KEYFLAG_LEFT | KEYFLAG_DOWN | KEYFLAG_JUMP | KEYFLAG_DASH);
    assert_eq!((i.x, i.y), (-1, 1));
    assert!(i.jump && i.dash && !i.up);
    let i = Input::from_keys(0b0000_1100);
    assert_eq!((i.x, i.y), (0, 0));
    assert!(!i.jump && !i.dash && !i.up && !i.down);
}

#[test]
fn tick_length_conversion() {
    assert_eq!(ticks_of_micros(33_333), 1000);
    assert_eq!(ticks_of_micros(0), 0);
    assert_eq!(ticks_of_micros(1_000_000), 30_000);
    assert_eq!(ticks_of_micros(16_667), 500);
    assert_eq!(ticks_of_micros(u32::MAX), 128_849_019);
}

#[test]
fn approach_stops_at_target() {
    assert_eq!(approach(0, 1000, 600), 600);
    assert_eq!(approach(800, 1000, 600), 1000);
    assert_eq!(approach(5000, 2000, 1500), 3500);
    assert_eq!(approach(2500, 2000, 1500), 2000);
    assert_eq!(approach(-300, -300, 10), -300);
}

#[test]
fn floor_div_rounds_down() {
    assert_eq!(floor_div(7, 2), 3);
    assert_eq!(floor_div(-7, 2), -4);
    assert_eq!(floor_div(-6, 2), -3);
    assert_eq!(floor_div(0, 5), 0);
    assert_eq!(floor_div(-1, 1000), -1);
}
