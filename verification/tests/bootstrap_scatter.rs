use random::Source;

use testbed2d::BODY_COUNT;
use testbed2d::GeometryError;
use testbed2d::HALF_EXTENT_MICRO;
use testbed2d::SCATTER_SEED_A;
use testbed2d::SCATTER_SEED_B;
use testbed2d::ScatterGen;
use testbed2d::bootstrap_positions;
use testbed2d::outline_corner_count;
use testbed2d::position_from_draws;
use testbed2d::scatter_positions;

#[test]
fn bootstrap_is_deterministic_across_runs() {
    let first = bootstrap_positions();
    let second = bootstrap_positions();
    assert_eq!(first, second);
    assert_eq!(first.len(), BODY_COUNT);
}

#[test]
fn every_bootstrap_position_is_inside_the_square() {
    for b in bootstrap_positions() {
        assert!(-HALF_EXTENT_MICRO <= b.x_micro && b.x_micro <= HALF_EXTENT_MICRO);
        assert!(-HALF_EXTENT_MICRO <= b.y_micro && b.y_micro <= HALF_EXTENT_MICRO);
    }
}

#[test]
fn different_seeds_scatter_differently() {
    let a = scatter_positions(SCATTER_SEED_A, SCATTER_SEED_B, BODY_COUNT);
    let b = scatter_positions(7, 9, BODY_COUNT);
    assert_ne!(a, b);
}

#[test]
fn generator_matches_the_random_crate_stream() {
    let mut ours = ScatterGen::seed(SCATTER_SEED_A, SCATTER_SEED_B);
    let mut theirs = random::Xorshift128Plus::new([SCATTER_SEED_A, SCATTER_SEED_B]);
    for _ in 0..100 {
        assert_eq!(ours.next_value(), theirs.read_u64());
    }
}

#[test]
fn draw_extremes_map_to_square_corners() {
    let low = position_from_draws(0, 0);
    assert_eq!(low.x_micro, -HALF_EXTENT_MICRO);
    assert_eq!(low.y_micro, -HALF_EXTENT_MICRO);
    let high = position_from_draws(u64::MAX, u64::MAX);
    assert_eq!(high.x_micro, HALF_EXTENT_MICRO);
    assert_eq!(high.y_micro, HALF_EXTENT_MICRO);
    let mid = position_from_draws(u64::MAX / 2 + 1, 0);
    assert_eq!(mid.x_micro, 0);
}

#[test]
fn outlines_need_at_least_four_corners() {
    assert_eq!(outline_corner_count(3), Err(GeometryError::TooFewCorners));
    assert_eq!(outline_corner_count(0), Err(GeometryError::TooFewCorners));
    assert_eq!(outline_corner_count(4), Ok(4));
    assert_eq!(outline_corner_count(6), Ok(6));
}
