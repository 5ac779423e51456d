//! Simulation-level tests: the starting layout, the two-pass tick,
//! behaviour switching, and the keyboard-driven target.

use steering_behaviours::behaviour::SteeringBehaviour;
use steering_behaviours::keyboard::DirPressedStatus;
use steering_behaviours::keyboard::Direction;
use steering_behaviours::sim::MainState;
use steering_behaviours::sim::NUM_BOTS;
use steering_behaviours::target::Target;
use steering_behaviours::vec2::Vector2;
use steering_behaviours::SCALE;

const RES_X: i64 = 1920 * SCALE;
const RES_Y: i64 = 1080 * SCALE;

#[test]
fn main_state_starting_layout() {
    let s = MainState::new(Vector2::new(RES_X, RES_Y));
    assert_eq!(s.bots.len(), NUM_BOTS);
    // x at seven tenths of the width, bots stacked by a fifth of the
    // height above the 200-pixel margin.
    let x = RES_X * 7 / 10;
    let gap = (RES_Y - 200 * SCALE) / 5;
    for (i, b) in s.bots.iter().enumerate() {
        assert_eq!(b.pos.x, x);
        assert_eq!(b.pos.y, 100 * SCALE + gap * (i as i64 + 1));
        assert_eq!(b.disabled, i != 0);
        assert_eq!(b.speed, Vector2::new(0, 0));
    }
    assert_eq!(s.target.pos, Vector2::new(500 * SCALE, 500 * SCALE));
    assert!(matches!(s.steering_behaviour, SteeringBehaviour::SimpleSeek));
    assert_eq!(s.x, 1);
}

#[test]
fn tick_moves_only_enabled_bots() {
    let mut s = MainState::new(Vector2::new(RES_X, RES_Y));
    let before: Vec<_> = s.bots.clone();
    s.update(0, RES_X, RES_Y);
    assert_eq!(s.bots.len(), NUM_BOTS);
    // The enabled bot headed for the target; the disabled ones are
    // bit-for-bit untouched.
    assert_ne!(s.bots[0].pos, before[0].pos);
    for i in 1..NUM_BOTS {
        assert_eq!(s.bots[i], before[i]);
    }
}

#[test]
fn tick_respects_speed_cap_over_many_ticks() {
    let mut s = MainState::new(Vector2::new(RES_X, RES_Y));
    for t in 0..100u64 {
        s.update(t * 16, RES_X, RES_Y);
        for b in s.bots.iter() {
            let n = b.speed.x * b.speed.x + b.speed.y * b.speed.y;
            assert!(n <= 10 * SCALE * 10 * SCALE);
            assert!(0 <= b.pos.x && b.pos.x <= RES_X);
            assert!(0 <= b.pos.y && b.pos.y <= RES_Y);
        }
    }
}

#[test]
fn seeking_bot_reaches_the_target_area() {
    let mut s = MainState::new(Vector2::new(RES_X, RES_Y));
    for t in 0..300u64 {
        s.update(t * 16, RES_X, RES_Y);
    }
    // Simple seek is deterministic; after five seconds the enabled bot
    // orbits close around the stationary target.
    let d = s.bots[0].pos.x - s.target.pos.x;
    let e = s.bots[0].pos.y - s.target.pos.y;
    let dist_sq = d * d + e * e;
    assert!(
        dist_sq <= (100 * SCALE) * (100 * SCALE),
        "still {} units^2 away",
        dist_sq
    );
}

#[test]
fn switching_behaviour_keeps_position_and_velocity() {
    let mut s = MainState::new(Vector2::new(RES_X, RES_Y));
    for t in 0..5u64 {
        s.update(t * 16, RES_X, RES_Y);
    }
    let bots_before = s.bots.clone();
    let target_before = s.target;
    s.key_down_event(5);
    assert_eq!(s.bots, bots_before);
    assert_eq!(s.target, target_before);
    assert!(matches!(s.steering_behaviour, SteeringBehaviour::Flee(_)));
    // An unmapped key changes nothing at all.
    s.key_down_event(9);
    assert!(matches!(s.steering_behaviour, SteeringBehaviour::Flee(_)));
    assert_eq!(s.bots, bots_before);
}

#[test]
fn key_mapping_selects_each_behaviour() {
    let mut s = MainState::new(Vector2::new(RES_X, RES_Y));
    s.key_down_event(2);
    assert!(matches!(s.steering_behaviour, SteeringBehaviour::SimpleFlee));
    s.key_down_event(3);
    assert!(matches!(
        s.steering_behaviour,
        SteeringBehaviour::SeekAndArrive(r) if r == 60 * SCALE
    ));
    s.key_down_event(4);
    assert!(matches!(s.steering_behaviour, SteeringBehaviour::Wander(_)));
    s.key_down_event(5);
    assert!(matches!(
        s.steering_behaviour,
        SteeringBehaviour::Flee(r) if r == 100 * SCALE
    ));
    s.key_down_event(1);
    assert!(matches!(s.steering_behaviour, SteeringBehaviour::SimpleSeek));
}

#[test]
fn direction_bits_toggle_independently() {
    let mut s = DirPressedStatus(0);
    s.press(Direction::Up);
    s.press(Direction::Left);
    assert!(s.pressed(Direction::Up));
    assert!(s.pressed(Direction::Left));
    assert!(!s.pressed(Direction::Right));
    assert!(!s.pressed(Direction::Down));
    s.release(Direction::Up);
    assert!(!s.pressed(Direction::Up));
    assert!(s.pressed(Direction::Left));
}

#[test]
fn dir_vector_sums_and_cancels() {
    let mut s = DirPressedStatus(0);
    s.press(Direction::Up);
    s.press(Direction::Right);
    assert_eq!(s.dir_vector(), Vector2::new(SCALE, -SCALE));
    s.press(Direction::Down);
    s.press(Direction::Left);
    // All four held: everything cancels.
    assert_eq!(s.dir_vector(), Vector2::new(0, 0));
}

#[test]
fn target_moves_at_constant_speed() {
    let mut t = Target::new(Vector2::new(0, 0));
    t.on_dir_key_pressed(Direction::Right);
    t.update();
    assert_eq!(t.pos, Vector2::new(5 * SCALE, 0));
    // Diagonal motion is normalized to the same speed, within rounding.
    let mut d = Target::new(Vector2::new(0, 0));
    d.on_dir_key_pressed(Direction::Right);
    d.on_dir_key_pressed(Direction::Down);
    d.update();
    assert_eq!(d.pos, Vector2::new(3533, 3533));
    let n = d.pos.x * d.pos.x + d.pos.y * d.pos.y;
    assert!(n <= 5 * SCALE * 5 * SCALE);
    // With the keys released nothing moves.
    let mut r = Target::new(Vector2::new(70, 80));
    r.update();
    assert_eq!(r.pos, Vector2::new(70, 80));
}

#[test]
fn target_warps_on_left_click_only() {
    let mut t = Target::new(Vector2::new(1, 2));
    t.mouse_button_down_event(false, 900, 900);
    assert_eq!(t.pos, Vector2::new(1, 2));
    t.mouse_button_down_event(true, 900, 900);
    assert_eq!(t.pos, Vector2::new(900, 900));
}
