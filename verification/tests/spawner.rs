use flappy_core::rng::GapRng;
use flappy_core::spawner::pipe_positions;
use flappy_core::spawner::spawn_pipe_set;
use flappy_core::spawner::FIRST_SPAWN_X;
use flappy_core::spawner::GAP_CENTER_MAX;
use flappy_core::spawner::GAP_CENTER_MIN;
use flappy_core::spawner::GAP_HEIGHT_MAX;
use flappy_core::spawner::GAP_HEIGHT_MIN;
use flappy_core::spawner::PIPE_SPEED_X;
use flappy_core::timer::SpawnTimer;

#[test]
fn pipe_positions_standard_gap() {
    // gap center 0, gap height 150, pipe height 320
    let (upper, lower) = pipe_positions(0, 150);
    assert_eq!(upper, -235);
    assert_eq!(lower, 235);
}

#[test]
fn pipe_positions_follow_gap_center() {
    let (upper, lower) = pipe_positions(-100, 80);
    assert_eq!(upper, -100 - 40 - 160);
    assert_eq!(lower, -100 + 40 + 160);
    let (upper, lower) = pipe_positions(100, 150);
    assert_eq!(upper, 100 - 75 - 160);
    assert_eq!(lower, 100 + 75 + 160);
}

#[test]
fn spawned_set_is_within_ranges_and_mirrored() {
    let mut rng = GapRng::from_seed(7);
    for _ in 0..50 {
        let p = spawn_pipe_set(FIRST_SPAWN_X, &mut rng);
        assert_eq!(p.x, FIRST_SPAWN_X);
        assert_eq!(p.velocity_x, PIPE_SPEED_X);
        assert!(GAP_CENTER_MIN <= p.gap_center && p.gap_center <= GAP_CENTER_MAX);
        assert!(GAP_HEIGHT_MIN <= p.gap_height && p.gap_height <= GAP_HEIGHT_MAX);
        assert_eq!(p.upper_pipe_y, p.gap_center - p.gap_height / 2 - 160);
        assert_eq!(p.lower_pipe_y, p.gap_center + p.gap_height / 2 + 160);
    }
}

#[test]
fn draws_are_seeded_and_vary() {
    let mut a = GapRng::from_seed(42);
    let mut b = GapRng::from_seed(42);
    let mut lowest = 100;
    let mut highest = 0;
    for _ in 0..100 {
        let x = a.draw(0, 100);
        let y = b.draw(0, 100);
        assert_eq!(x, y);
        assert!((0..=100).contains(&x));
        lowest = lowest.min(x);
        highest = highest.max(x);
    }
    // A source that echoed a bound back would never vary.
    assert!(lowest < highest);
    assert_eq!(a.draw(5, 5), 5);
}

#[test]
fn timer_waits_a_full_period() {
    let mut t = SpawnTimer::new(1500);
    assert!(!t.tick(1000));
    assert!(!t.tick(499));
    assert!(t.tick(1));
    // The firing reset the countdown to the full period.
    assert_eq!(t.remaining_ms, 1500);
    assert!(!t.tick(1499));
    assert!(t.tick(1499));
}

#[test]
fn timer_fires_on_overshoot() {
    let mut t = SpawnTimer::new(1500);
    assert!(t.tick(5000));
    assert_eq!(t.remaining_ms, 1500);
}
