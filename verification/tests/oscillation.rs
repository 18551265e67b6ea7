use stack_game::config::{MOVE_INTERVAL, SPEED_INCREASE_DEN, SPEED_INCREASE_NUM};
use stack_game::oscillation::{is_step_due, room_for_step, speed_up};

#[test]
fn platform_has_room_until_it_touches_the_edge() {
    assert!(room_for_step(5, 5, true));
    assert!(room_for_step(9, 5, true));
    assert!(!room_for_step(10, 5, true));
    assert!(room_for_step(10, 5, false));
    assert!(room_for_step(1, 5, false));
    assert!(!room_for_step(0, 5, false));
}

#[test]
fn platform_as_wide_as_the_field_has_no_room() {
    assert!(!room_for_step(0, 15, true));
    assert!(!room_for_step(0, 15, false));
}

#[test]
fn platform_off_the_field_has_no_room_to_the_right() {
    assert!(!room_for_step(14, 5, true));
    assert!(!room_for_step(0, 16, true));
    assert!(!room_for_step(usize::MAX, usize::MAX, true));
    assert!(room_for_step(usize::MAX, usize::MAX, false));
}

#[test]
fn narrow_platform_reaches_the_last_column() {
    assert!(room_for_step(13, 1, true));
    assert!(!room_for_step(14, 1, true));
}

#[test]
fn step_is_due_when_the_interval_is_reached() {
    assert!(!is_step_due(0, 199_999_999, 200_000_000));
    assert!(is_step_due(0, 200_000_000, 200_000_000));
    assert!(is_step_due(150_000_000, 50_000_000, 200_000_000));
    assert!(!is_step_due(150_000_000, 49_999_999, 200_000_000));
    assert!(is_step_due(0, 200_000_001, 200_000_000));
}

#[test]
fn step_is_always_due_with_no_interval() {
    assert!(is_step_due(0, 0, 0));
    assert!(is_step_due(0, 1, 0));
}

#[test]
fn step_test_does_not_overflow() {
    assert!(is_step_due(u64::MAX, u64::MAX, u64::MAX));
    assert!(is_step_due(1, u64::MAX, u64::MAX));
    assert!(!is_step_due(0, u64::MAX - 1, u64::MAX));
}

#[test]
fn speed_up_takes_eight_percent_off() {
    assert_eq!(speed_up(200_000_000), 184_000_000);
    assert_eq!(speed_up(184_000_000), 169_280_000);
    assert_eq!(speed_up(169_280_000), 155_737_600);
    assert_eq!(speed_up(100), 92);
}

#[test]
fn speed_up_rounds_down() {
    assert_eq!(speed_up(143_278_592), 131_816_304);
    assert_eq!(speed_up(13), 11);
    assert_eq!(speed_up(2), 1);
    assert_eq!(speed_up(1), 0);
    assert_eq!(speed_up(0), 0);
}

#[test]
fn speed_up_of_the_largest_interval() {
    let expected = (u64::MAX as u128 * 92 / 100) as u64;
    assert_eq!(speed_up(u64::MAX), expected);
}

#[test]
fn interval_shrinks_until_it_is_zero() {
    let mut interval = MOVE_INTERVAL;
    let mut levels = 0;
    while interval > 0 {
        let next = speed_up(interval);
        assert!(next < interval);
        assert_eq!(next as u128, interval as u128 * SPEED_INCREASE_NUM as u128 / SPEED_INCREASE_DEN as u128);
        interval = next;
        levels += 1;
    }
    assert_eq!(speed_up(interval), 0);
    assert!(levels > 100);
}

#[test]
fn interval_follows_the_geometric_sequence() {
    let mut interval = MOVE_INTERVAL;
    for level in 0..120 {
        let exact = MOVE_INTERVAL as f64 * 0.92f64.powi(level);
        assert!(interval as f64 <= exact + 1e-3, "level {}", level);
        assert!(interval as f64 + 13.0 > exact, "level {}", level);
        interval = speed_up(interval);
    }
}
