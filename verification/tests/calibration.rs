use mpu6050::calibration::{adjust_offset, fine_tune_of, offset_step, within_tolerance};

#[test]
fn tolerance_band_is_strict() {
    // sums are means in thousandths of a count; the band is |mean| < 1.5
    assert!(within_tolerance(0));
    assert!(within_tolerance(1499));
    assert!(within_tolerance(-1499));
    assert!(!within_tolerance(1500));
    assert!(!within_tolerance(-1500));
    assert!(!within_tolerance(40000));
}

#[test]
fn step_is_a_quarter_of_the_mean_truncated() {
    // mean 40 counts -> step 10; mean 30 -> 7 (truncated)
    assert_eq!(offset_step(40000), 10);
    assert_eq!(offset_step(30000), 7);
    assert_eq!(offset_step(-40000), -10);
    assert_eq!(offset_step(-30000), -7);
}

#[test]
fn step_is_at_least_one_count() {
    assert_eq!(offset_step(1501), 1);
    assert_eq!(offset_step(3999), 1);
    assert_eq!(offset_step(-3999), -1);
    assert_eq!(offset_step(4000), 1);
    assert_eq!(offset_step(7999), 1);
    assert_eq!(offset_step(8000), 2);
}

#[test]
fn axes_inside_the_band_keep_their_offset() {
    assert_eq!(adjust_offset(123, 0), 123);
    assert_eq!(adjust_offset(123, 1499), 123);
    assert_eq!(adjust_offset(123, -1499), 123);
    // exactly at the band edge the axis is left unchanged this round
    assert_eq!(adjust_offset(123, 1500), 123);
    assert_eq!(adjust_offset(123, -1500), 123);
}

#[test]
fn axes_outside_the_band_move_against_the_mean() {
    assert_eq!(adjust_offset(0, 40000), -10);
    assert_eq!(adjust_offset(0, -40000), 10);
    assert_eq!(adjust_offset(-10, 30000), -17);
    assert_eq!(adjust_offset(100, 1501), 99);
}

#[test]
fn fine_tune_is_the_negated_truncated_mean() {
    assert_eq!(fine_tune_of(0), 0);
    assert_eq!(fine_tune_of(1400), -1);
    assert_eq!(fine_tune_of(999), 0);
    assert_eq!(fine_tune_of(-999), 0);
    assert_eq!(fine_tune_of(-1400), 1);
    assert_eq!(fine_tune_of(32767000), -32767);
}
