use mpu6050::conversion::{div_trunc, read_word_2c, temp_centi};

#[test]
fn decode_word_corner_cases() {
    assert_eq!(read_word_2c(&[0x00, 0x00]), 0);
    assert_eq!(read_word_2c(&[0x7f, 0xff]), 32767);
    assert_eq!(read_word_2c(&[0x80, 0x00]), -32768);
    assert_eq!(read_word_2c(&[0xff, 0xff]), -1);
}

#[test]
fn decode_word_small_values() {
    assert_eq!(read_word_2c(&[0x00, 0x01]), 1);
    assert_eq!(read_word_2c(&[0x01, 0x2c]), 300);
    assert_eq!(read_word_2c(&[0xff, 0xd4]), -44);
}

#[test]
fn temp_of_raw_zero_is_exactly_the_offset() {
    assert_eq!(temp_centi(0), 3653);
}

#[test]
fn temp_exact_values() {
    // 340 counts are one degree: 37.53 degrees
    assert_eq!(temp_centi(340), 3753);
    assert_eq!(temp_centi(-340), 3553);
    // truncation toward zero of the scaled quotient
    assert_eq!(temp_centi(1), 3653);
    assert_eq!(temp_centi(17), 3658);  // 1700 / 340 == 5
    assert_eq!(temp_centi(-17), 3648);
}

#[test]
fn temp_is_monotonic_in_the_raw_word() {
    let mut last = temp_centi(-32768);
    let mut raw: i32 = -32768 + 97;
    while raw <= 32767 {
        let t = temp_centi(raw);
        assert!(t >= last);
        last = t;
        raw += 97;
    }
    assert!(temp_centi(-32768) < temp_centi(0));
    assert!(temp_centi(0) < temp_centi(32767));
}

#[test]
fn div_trunc_rounds_toward_zero() {
    assert_eq!(div_trunc(7, 2), 3);
    assert_eq!(div_trunc(-7, 2), -3);
    assert_eq!(div_trunc(999, 1000), 0);
    assert_eq!(div_trunc(-999, 1000), 0);
    assert_eq!(div_trunc(-1000, 1000), -1);
}
