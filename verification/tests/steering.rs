//! Behaviour-level tests: seek, arrive, flee, wander, and the integration
//! step, with deterministic random directions substituted.

use steering_behaviours::behaviour::SteeringBehaviour;
use steering_behaviours::behaviour::WanderProps;
use steering_behaviours::bot::Bot;
use steering_behaviours::bot::StateUpdate;
use steering_behaviours::vec2::Vector2;
use steering_behaviours::MAX_IMPULSE;
use steering_behaviours::MAX_SPEED;
use steering_behaviours::SCALE;

/// A deterministic stand-in for a random unit vector: exactly one pixel
/// long, pointing along the x axis.
fn stub_dir() -> Vector2 {
    Vector2::new(SCALE, 0)
}

fn bot_at(x: i64, y: i64) -> Bot {
    let mut b = Bot::default();
    b.pos = Vector2::new(x, y);
    b
}

#[test]
fn simple_seek_first_tick_reference_case() {
    // Bot at the origin, target a hundred pixels to the right.
    let b = bot_at(0, 0);
    let target = Vector2::new(100 * SCALE, 0);
    let su = b.calculate_steering_impulse_seeded(
        target,
        &SteeringBehaviour::SimpleSeek,
        0,
        stub_dir(),
        stub_dir(),
    );
    // Desired velocity: ten pixels per tick straight at the target.
    assert_eq!(su.desired_speed, Vector2::new(MAX_SPEED, 0));
    // Impulse capped at three pixels per tick.
    assert_eq!(su.steering_impulse, Vector2::new(MAX_IMPULSE, 0));
    assert_eq!(su.last_wander, None);

    // Integration: velocity picks up the impulse, friction keeps 9/10.
    let mut b2 = b;
    b2.update(1_920_000, 1_080_000, &su);
    assert_eq!(b2.speed, Vector2::new(2700, 0));
    assert_eq!(b2.pos, Vector2::new(2700, 0));
    assert_eq!(b2.desired_speed, Vector2::new(MAX_SPEED, 0));
}

#[test]
fn enforce_pos_inside_view_contains_far_points() {
    let mut b = bot_at(-1_500_000_000, 1_999_999_999);
    b.enforce_pos_inside_view(1_920_000, 1_080_000);
    assert_eq!(b.pos, Vector2::new(0, 1_080_000));
    let mut c = bot_at(500, 700);
    c.enforce_pos_inside_view(1_920_000, 1_080_000);
    assert_eq!(c.pos, Vector2::new(500, 700));
}

#[test]
fn disabled_bot_never_changes() {
    let mut b = bot_at(123, 456);
    b.speed = Vector2::new(10, -10);
    b.disabled = true;
    let before = b;
    let su = StateUpdate {
        desired_speed: Vector2::new(MAX_SPEED, 0),
        steering_impulse: Vector2::new(MAX_IMPULSE, 0),
        last_wander: Some(99),
    };
    for _ in 0..10 {
        b.update(1_920_000, 1_080_000, &su);
    }
    assert_eq!(b, before);
}

#[test]
fn arrive_with_zero_radius_is_simple_seek() {
    let cases = [
        (0i64, 0i64, 100 * SCALE, 0i64),
        (5000, -7000, 2000, 1500),
        (40 * SCALE, 40 * SCALE, 41 * SCALE, 39 * SCALE),
    ];
    for (bx, by, tx, ty) in cases {
        let mut b = bot_at(bx, by);
        b.speed = Vector2::new(1200, -300);
        let target = Vector2::new(tx, ty);
        let seek = b.calculate_steering_impulse_seeded(
            target,
            &SteeringBehaviour::SimpleSeek,
            7,
            stub_dir(),
            stub_dir(),
        );
        let arrive = b.calculate_steering_impulse_seeded(
            target,
            &SteeringBehaviour::SeekAndArrive(0),
            7,
            stub_dir(),
            stub_dir(),
        );
        assert_eq!(seek, arrive);
    }
}

#[test]
fn arrive_ramps_down_inside_radius() {
    // Bot fifty pixels from the target, arrival radius a hundred pixels.
    let b = bot_at(0, 0);
    let target = Vector2::new(50 * SCALE, 0);
    let su = b.calculate_steering_impulse_seeded(
        target,
        &SteeringBehaviour::SeekAndArrive(100 * SCALE),
        0,
        stub_dir(),
        stub_dir(),
    );
    // Desired: full speed scaled by distance/radius = 1/2.
    assert_eq!(su.desired_speed, Vector2::new(MAX_SPEED / 2, 0));
}

#[test]
fn flee_coincident_runs_at_exactly_top_speed() {
    // Bot and target on the same point: the random direction decides.
    let b = bot_at(300 * SCALE, 300 * SCALE);
    let target = Vector2::new(300 * SCALE, 300 * SCALE);
    let rand = Vector2::new(600, 800);
    let su = b.calculate_steering_impulse_seeded(
        target,
        &SteeringBehaviour::Flee(100 * SCALE),
        0,
        rand,
        rand,
    );
    assert_eq!(su.desired_speed, Vector2::new(6000, 8000));
    let d = su.desired_speed;
    assert_eq!(d.x * d.x + d.y * d.y, MAX_SPEED * MAX_SPEED);
    assert!(!(d.x == 0 && d.y == 0));
}

#[test]
fn flee_near_zero_boundary_picks_the_random_direction() {
    // The near-zero guard fires strictly below a squared distance of a
    // tenth of a pixel: 316 units away (99_856) is inside the guard, 317
    // units (100_489) is outside it.
    let target = Vector2::new(0, 0);
    let rand = Vector2::new(0, SCALE);
    let inside = bot_at(316, 0).calculate_steering_impulse_seeded(
        target,
        &SteeringBehaviour::Flee(100 * SCALE),
        0,
        rand,
        rand,
    );
    assert_eq!(inside.desired_speed, Vector2::new(0, MAX_SPEED));
    let outside = bot_at(317, 0).calculate_steering_impulse_seeded(
        target,
        &SteeringBehaviour::Flee(100 * SCALE),
        0,
        rand,
        rand,
    );
    assert_eq!(outside.desired_speed, Vector2::new(MAX_SPEED, 0));
}

#[test]
fn flee_out_of_trigger_radius_is_a_no_op() {
    // Target two hundred pixels away, trigger radius one hundred.
    let b = bot_at(0, 0);
    let target = Vector2::new(200 * SCALE, 0);
    let su = b.calculate_steering_impulse_seeded(
        target,
        &SteeringBehaviour::Flee(100 * SCALE),
        0,
        stub_dir(),
        stub_dir(),
    );
    assert_eq!(su.desired_speed, Vector2::zero());
    assert_eq!(su.steering_impulse, Vector2::zero());
}

#[test]
fn flee_in_range_runs_away() {
    // Target forty pixels away: desired velocity points from the target
    // toward the bot at top speed.
    let b = bot_at(40 * SCALE, 0);
    let target = Vector2::new(0, 0);
    let su = b.calculate_steering_impulse_seeded(
        target,
        &SteeringBehaviour::Flee(100 * SCALE),
        0,
        stub_dir(),
        stub_dir(),
    );
    assert_eq!(su.desired_speed, Vector2::new(MAX_SPEED, 0));
    assert_eq!(su.steering_impulse, Vector2::new(MAX_IMPULSE, 0));
}

#[test]
fn simple_flee_acts_everywhere_nearby() {
    let b = bot_at(0, 0);
    let target = Vector2::new(500 * SCALE, 0);
    let su = b.calculate_steering_impulse_seeded(
        target,
        &SteeringBehaviour::SimpleFlee,
        0,
        stub_dir(),
        stub_dir(),
    );
    assert_eq!(su.desired_speed, Vector2::new(-MAX_SPEED, 0));
}

#[test]
fn wander_is_rate_limited() {
    let props = WanderProps::default();
    let mut b = bot_at(0, 0);
    b.last_wander = 1000;
    b.speed = Vector2::new(5000, 0);
    // Within the interval: a no-op update.
    let su = b.calculate_steering_impulse_seeded(
        Vector2::zero(),
        &SteeringBehaviour::Wander(props),
        1050,
        stub_dir(),
        stub_dir(),
    );
    assert_eq!(su.steering_impulse, Vector2::zero());
    assert_eq!(su.desired_speed, Vector2::zero());
    assert_eq!(su.last_wander, None);
    // At the interval: a fresh impulse and a new timestamp.
    let ra = Vector2::new(SCALE, 0);
    let rb = Vector2::new(0, SCALE);
    let su2 = b.calculate_steering_impulse_seeded(
        Vector2::zero(),
        &SteeringBehaviour::Wander(props),
        1100,
        ra,
        rb,
    );
    assert_eq!(su2.last_wander, Some(1100));
    // Heading (5000,0) scaled to three pixels, plus (0,SCALE) scaled to
    // two pixels, minus the current velocity, gives (-2000, 2000).
    assert_eq!(su2.steering_impulse, Vector2::new(-2000, 2000));
    assert!(!(su2.steering_impulse.x == 0 && su2.steering_impulse.y == 0));
}

#[test]
fn wander_at_rest_heads_along_first_random_direction() {
    let props = WanderProps::default();
    let b = bot_at(0, 0);
    let ra = Vector2::new(0, SCALE);
    let rb = Vector2::new(SCALE, 0);
    let su = b.calculate_steering_impulse_seeded(
        Vector2::zero(),
        &SteeringBehaviour::Wander(props),
        100,
        ra,
        rb,
    );
    // Heading (0,SCALE) scaled to three pixels plus (SCALE,0) scaled to
    // two pixels: desired (2000, 3000), impulse capped to MAX_IMPULSE.
    // |(2000,3000)| > 3000, ceil sqrt of 13_000_000 is 3606.
    let d = 3606;
    assert_eq!(
        su.steering_impulse,
        Vector2::new(2000 * MAX_IMPULSE / d, 3000 * MAX_IMPULSE / d)
    );
}

#[test]
fn impulse_is_always_capped() {
    let behaviours = [
        SteeringBehaviour::SimpleSeek,
        SteeringBehaviour::SimpleFlee,
        SteeringBehaviour::SeekAndArrive(60 * SCALE),
        SteeringBehaviour::Flee(100 * SCALE),
        SteeringBehaviour::Wander(WanderProps::default()),
        SteeringBehaviour::SeekSquad(60 * SCALE, 100 * SCALE),
    ];
    let positions = [(0i64, 0i64), (50 * SCALE, -20 * SCALE), (999 * SCALE, 999 * SCALE)];
    for behaviour in behaviours {
        for (x, y) in positions {
            let mut b = bot_at(x, y);
            b.speed = Vector2::new(-7000, 7000);
            let su = b.calculate_steering_impulse_seeded(
                Vector2::new(30 * SCALE, 10 * SCALE),
                &behaviour,
                500,
                stub_dir(),
                stub_dir(),
            );
            let i = su.steering_impulse;
            assert!(i.x * i.x + i.y * i.y <= MAX_IMPULSE * MAX_IMPULSE);
            let mut b2 = b;
            b2.speed = Vector2::new(-7000, 7000);
            b2.update(1_920_000, 1_080_000, &su);
            let s = b2.speed;
            assert!(s.x * s.x + s.y * s.y <= MAX_SPEED * MAX_SPEED);
        }
    }
}

#[test]
fn update_persists_wander_timestamp() {
    let mut b = bot_at(100, 100);
    b.last_wander = 7;
    let keep = StateUpdate {
        desired_speed: Vector2::zero(),
        steering_impulse: Vector2::zero(),
        last_wander: None,
    };
    b.update(1_920_000, 1_080_000, &keep);
    assert_eq!(b.last_wander, 7);
    let fresh = StateUpdate {
        desired_speed: Vector2::zero(),
        steering_impulse: Vector2::zero(),
        last_wander: Some(42),
    };
    b.update(1_920_000, 1_080_000, &fresh);
    assert_eq!(b.last_wander, 42);
}

#[test]
fn seek_squad_currently_flees_the_target() {
    let b = bot_at(40 * SCALE, 0);
    let target = Vector2::new(0, 0);
    let squad = b.calculate_steering_impulse_seeded(
        target,
        &SteeringBehaviour::SeekSquad(100 * SCALE, 60 * SCALE),
        0,
        stub_dir(),
        stub_dir(),
    );
    let flee = b.calculate_steering_impulse_seeded(
        target,
        &SteeringBehaviour::Flee(100 * SCALE),
        0,
        stub_dir(),
        stub_dir(),
    );
    assert_eq!(squad, flee);
}

#[test]
fn get_radius_is_a_fraction_of_view_height() {
    let b = Bot::default();
    assert_eq!(b.get_radius(1_080_000), 30_000);
}

#[test]
fn behaviour_names() {
    assert_eq!(SteeringBehaviour::SimpleSeek.name(), "Simple Seek");
    assert_eq!(SteeringBehaviour::SimpleFlee.name(), "Simple Flee");
    assert_eq!(SteeringBehaviour::SeekAndArrive(0).name(), "Seek and Arrive");
    assert_eq!(SteeringBehaviour::Flee(0).name(), "Flee");
    assert_eq!(
        SteeringBehaviour::Wander(WanderProps::default()).name(),
        "Wander"
    );
    assert_eq!(SteeringBehaviour::SeekSquad(0, 0).name(), "Seek Squad");
}
