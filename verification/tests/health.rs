use engine::health::PLAYER_HEALTH;
use engine::Health;

#[test]
fn new_health_is_full() {
    let health = Health::new(PLAYER_HEALTH);
    assert_eq!(health.current, 100_000_000);
    assert_eq!(health.max, 100_000_000);
    assert!(!health.is_dead());
}

#[test]
fn damage_runs_health_down_to_zero_and_no_further() {
    let mut health = Health::new(100_000_000);
    health.apply_damage(30_000_000);
    assert_eq!(health.current, 70_000_000);
    assert!(!health.is_dead());
    health.apply_damage(70_000_000);
    assert_eq!(health.current, 0);
    assert!(health.is_dead());
    health.apply_damage(10_000_000);
    assert_eq!(health.current, 0);
    assert_eq!(health.max, 100_000_000);
}

#[test]
fn damage_beyond_what_is_left_stops_at_zero() {
    let mut health = Health::new(5_000_000);
    health.apply_damage(u64::MAX);
    assert_eq!(health.current, 0);
    assert!(health.is_dead());
}

#[test]
fn no_damage_changes_nothing() {
    let mut health = Health::new(42);
    health.apply_damage(0);
    assert_eq!(health, Health { current: 42, max: 42 });
}

#[test]
fn dead_is_exactly_zero() {
    assert!(Health { current: 0, max: 7 }.is_dead());
    assert!(!Health { current: 1, max: 7 }.is_dead());
}
