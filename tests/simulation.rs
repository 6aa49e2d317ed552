use planets::body::{generate_planet, Planet, MAX_RADIUS};
use planets::sim::{init_state, State};
use planets::vector::Vec2;
use planets::{HEIGHT, NUM_PLANETS, SCALE, WIDTH};

fn single(position: Vec2, velocity: Vec2, radius: i64) -> State {
    let mut state = State::new();
    state.add_planet(Planet::new(position, velocity, radius));
    state
}

#[test]
fn wraps_past_far_edge() {
    // a body at (3999, 10) moving at 200 units/s with radius 5, for one second
    let mut state = single(
        Vec2::new(3999 * SCALE, 10 * SCALE),
        Vec2::new(200_000, 0),
        5 * SCALE,
    );
    state.advance(1_000_000);
    let p = state.planets()[0].position();
    assert_eq!(p, Vec2::new(189 * SCALE, 10 * SCALE));
}

#[test]
fn wraps_past_near_edge() {
    let mut state = single(Vec2::new(0, 2 * SCALE), Vec2::new(-100_000, -10_000), 5 * SCALE);
    state.advance(1_000_000);
    let p = state.planets()[0].position();
    assert_eq!(p.x, 3910 * SCALE);
    assert_eq!(p.y, 2 * SCALE - 10 * SCALE + 4010 * SCALE);
}

#[test]
fn moves_without_wrap_inside() {
    let mut state = single(Vec2::new(100 * SCALE, 200 * SCALE), Vec2::new(3_000, -2_000), SCALE);
    state.advance(250_000);
    let p = state.planets()[0].position();
    assert_eq!(p, Vec2::new(100 * SCALE + 750_000_000, 200 * SCALE - 500_000_000));
    assert_eq!(state.last_frame(), 250_000);
}

#[test]
fn band_edge_is_not_wrapped() {
    // exactly at WIDTH + r: no correction
    let mut state = single(Vec2::new(WIDTH, 0), Vec2::new(1_000, 0), 5 * SCALE);
    state.advance(5_000_000);
    assert_eq!(state.planets()[0].position().x, WIDTH + 5 * SCALE);
}

#[test]
fn velocity_is_never_changed() {
    let v = Vec2::new(123_456, -98_765);
    let mut state = single(Vec2::new(10 * SCALE, 10 * SCALE), v, 3 * SCALE);
    let mut now: u64 = 0;
    for _ in 0..50 {
        now += 16_667;
        state.advance(now);
        assert_eq!(state.planets()[0].velocity(), v);
        assert_eq!(state.planets()[0].radius(), 3 * SCALE);
    }
}

#[test]
fn same_timestamp_moves_nothing() {
    let mut state = single(Vec2::new(50 * SCALE, 60 * SCALE), Vec2::new(7_000, 9_000), 2 * SCALE);
    state.advance(400_000);
    let first = state.planets()[0].position();
    state.advance(400_000);
    assert_eq!(state.planets()[0].position(), first);
    assert_eq!(first, Vec2::new(50 * SCALE + 2_800_000_000, 60 * SCALE + 3_600_000_000));
}

#[test]
fn clock_regression_is_clamped() {
    let mut state = single(Vec2::new(50 * SCALE, 60 * SCALE), Vec2::new(7_000, 9_000), 2 * SCALE);
    state.advance(500_000);
    let first = state.planets()[0].position();
    state.advance(200_000);
    assert_eq!(state.planets()[0].position(), first);
    assert_eq!(state.last_frame(), 200_000);
    // the next step is measured from the regressed time
    state.advance(300_000);
    assert_eq!(state.planets()[0].position().x, first.x + 700_000_000);
}

#[test]
fn order_of_bodies_is_kept() {
    let mut state = State::new();
    for k in 1..=5i64 {
        state.add_planet(Planet::new(Vec2::new(k * SCALE, 0), Vec2::new(k, 0), k * SCALE));
    }
    state.advance(1_000);
    let planets = state.planets();
    assert_eq!(planets.len(), 5);
    for (i, p) in planets.iter().enumerate() {
        let k = i as i64 + 1;
        assert_eq!(p.radius(), k * SCALE);
        assert_eq!(p.position().x, k * SCALE + k * 1_000);
    }
}

#[test]
fn new_state_is_empty() {
    let state = State::new();
    assert!(state.planets().is_empty());
    assert_eq!(state.last_frame(), 0);
}

#[test]
fn tick_keeps_population() {
    let mut state = init_state();
    let before: Vec<Planet> = state.planets().clone();
    state.tick();
    assert_eq!(state.planets().len(), before.len());
    for (a, b) in state.planets().iter().zip(before.iter()) {
        assert_eq!(a.velocity(), b.velocity());
        assert_eq!(a.radius(), b.radius());
    }
}

#[test]
fn init_state_population() {
    let state = init_state();
    assert_eq!(state.planets().len(), NUM_PLANETS as usize);
    assert_eq!(state.last_frame(), 0);
    for p in state.planets() {
        let pos = p.position();
        assert!(0 <= pos.x && pos.x <= WIDTH);
        assert!(0 <= pos.y && pos.y <= HEIGHT);
        assert!(p.radius() > 0 && p.radius() <= MAX_RADIUS);
        assert!(p.radius() >= 2 * SCALE);
    }
}

#[test]
fn init_state_draws_varied_bodies() {
    let state = init_state();
    let first = state.planets()[0];
    assert!(state.planets().iter().any(|p| p.position() != first.position()));
}

#[test]
fn smallest_raw_radius_gives_largest_body() {
    let p = generate_planet(1_000, 150_000, -150_000, 7, 9);
    assert_eq!(p.radius(), 400 * SCALE);
    assert_eq!(p.velocity(), Vec2::new(750, -750));
    assert_eq!(p.position(), Vec2::new(7, 9));
}

#[test]
fn largest_raw_radius_gives_smallest_body() {
    let p = generate_planet(200_000, 150_000, 0, 0, 0);
    assert_eq!(p.radius(), 2 * SCALE);
    assert_eq!(p.velocity(), Vec2::new(150_000, 0));
}

#[test]
fn derived_values_round_toward_zero() {
    let p = generate_planet(3_000, 100, -100, 0, 0);
    assert_eq!(p.radius(), 133_333_333_333);
    assert_eq!(p.velocity(), Vec2::new(1, -1));
}

#[test]
fn radius_is_positive_over_the_range() {
    for raw in [1_000i64, 1_001, 7_777, 99_999, 199_999, 200_000] {
        let p = generate_planet(raw, 0, 0, 0, 0);
        assert!(p.radius() > 0);
        assert_eq!(p.radius(), 400_000_000_000_000 / raw);
    }
}

#[test]
fn division_rounds_toward_zero() {
    assert_eq!(Vec2::new(7, -7).div(2), Vec2::new(3, -3));
    assert_eq!(Vec2::new(-1, 1).div(3), Vec2::new(0, 0));
}

#[test]
fn division_by_negative_scalar() {
    assert_eq!(Vec2::new(7, -7).div(-2), Vec2::new(-3, 3));
    assert_eq!(Vec2::new(-9, 9).div(-3), Vec2::new(3, -3));
    assert_eq!(Vec2::new(5, 0).div(-1), Vec2::new(-5, 0));
}

#[test]
fn division_of_most_negative_value() {
    assert_eq!(Vec2::new(i64::MIN, 9).div(2), Vec2::new(i64::MIN / 2, 4));
    assert_eq!(Vec2::new(i64::MIN, -9).div(-3), Vec2::new(i64::MIN / -3, 3));
    assert_eq!(Vec2::new(i64::MIN, i64::MAX).div(1), Vec2::new(i64::MIN, i64::MAX));
}

#[test]
fn componentwise_sum() {
    assert_eq!(Vec2::new(1, 2).add(Vec2::new(3, -5)), Vec2::new(4, -3));
    assert_eq!(Vec2::new(i64::MAX, i64::MIN).add(Vec2::new(-1, 1)), Vec2::new(i64::MAX - 1, i64::MIN + 1));
}
