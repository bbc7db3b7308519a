use tuxedo_infinitybook_gen10::sys::UW_MAX_FAN_SPEED;
use tuxedo_infinitybook_gen10::tuxedo_io::{percentage_to_speed, speed_to_percentage, MAX_DUTY};

#[test]
fn speed_to_percentage_rounds_to_nearest() {
    assert_eq!(speed_to_percentage(0), 0);
    assert_eq!(speed_to_percentage(1), 1);
    assert_eq!(speed_to_percentage(2), 1);
    assert_eq!(speed_to_percentage(3), 2);
    assert_eq!(speed_to_percentage(4), 2);
    assert_eq!(speed_to_percentage(100), 50);
    assert_eq!(speed_to_percentage(101), 51);
    assert_eq!(speed_to_percentage(199), 100);
    assert_eq!(speed_to_percentage(200), 100);
}

#[test]
fn speed_to_percentage_beyond_the_maximum() {
    assert_eq!(speed_to_percentage(201), 101);
    assert_eq!(speed_to_percentage(255), 128);
    assert_eq!(speed_to_percentage(508), 254);
    assert_eq!(speed_to_percentage(509), 255);
    assert_eq!(speed_to_percentage(510), 255);
    assert_eq!(speed_to_percentage(1000), 255);
    assert_eq!(speed_to_percentage(i32::MAX), 255);
}

#[test]
fn speed_to_percentage_of_negative_speed_is_zero() {
    assert_eq!(speed_to_percentage(-1), 0);
    assert_eq!(speed_to_percentage(-200), 0);
    assert_eq!(speed_to_percentage(i32::MIN), 0);
}

#[test]
fn percentage_to_speed_exact_values() {
    assert_eq!(percentage_to_speed(0), 0);
    assert_eq!(percentage_to_speed(1), 2);
    assert_eq!(percentage_to_speed(25), 50);
    assert_eq!(percentage_to_speed(50), 100);
    assert_eq!(percentage_to_speed(99), 198);
    assert_eq!(percentage_to_speed(100), 200);
}

#[test]
fn percentage_to_speed_saturates() {
    assert_eq!(percentage_to_speed(127), 254);
    assert_eq!(percentage_to_speed(128), 255);
    assert_eq!(percentage_to_speed(200), 255);
    assert_eq!(percentage_to_speed(255), 255);
}

#[test]
fn percentage_round_trips_within_one() {
    for percentage in 0..=MAX_DUTY {
        let speed = percentage_to_speed(percentage);
        assert!(i32::from(speed) <= UW_MAX_FAN_SPEED);
        let back = speed_to_percentage(i32::from(speed));
        assert!(back.abs_diff(percentage) <= 1);
        assert_eq!(back, percentage);
    }
}

#[test]
fn speed_round_trips_within_one() {
    for speed in 0..=UW_MAX_FAN_SPEED {
        let percentage = speed_to_percentage(speed);
        assert!(percentage <= MAX_DUTY);
        let back = i32::from(percentage_to_speed(percentage));
        assert!((back - speed).abs() <= 1);
    }
}

#[test]
fn conversions_are_monotonic() {
    for speed in -5..600 {
        assert!(speed_to_percentage(speed) <= speed_to_percentage(speed + 1));
    }
    for percentage in 0..u8::MAX {
        assert!(percentage_to_speed(percentage) <= percentage_to_speed(percentage + 1));
    }
}

#[test]
fn maximum_speed_is_full_duty() {
    assert_eq!(UW_MAX_FAN_SPEED, 200);
    assert_eq!(MAX_DUTY, 100);
    assert_eq!(speed_to_percentage(UW_MAX_FAN_SPEED), MAX_DUTY);
    assert_eq!(i32::from(percentage_to_speed(MAX_DUTY)), UW_MAX_FAN_SPEED);
}
