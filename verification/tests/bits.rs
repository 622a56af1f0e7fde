use mpu6050::bits::{get_bit, get_bits, set_bit, set_bits};

#[test]
fn get_bit_reads_each_position() {
    let byte: u8 = 0b0110_1001;
    assert_eq!(get_bit(byte, 0), 1);
    assert_eq!(get_bit(byte, 1), 0);
    assert_eq!(get_bit(byte, 2), 0);
    assert_eq!(get_bit(byte, 3), 1);
    assert_eq!(get_bit(byte, 4), 0);
    assert_eq!(get_bit(byte, 5), 1);
    assert_eq!(get_bit(byte, 6), 1);
    assert_eq!(get_bit(byte, 7), 0);
}

#[test]
fn set_bit_sets_and_clears() {
    let mut byte: u8 = 0b0000_0000;
    set_bit(&mut byte, 3, true);
    assert_eq!(byte, 0b0000_1000);
    set_bit(&mut byte, 7, true);
    assert_eq!(byte, 0b1000_1000);
    set_bit(&mut byte, 3, false);
    assert_eq!(byte, 0b1000_0000);
}

#[test]
fn set_bit_roundtrips_and_leaves_other_bits() {
    // writing back the bit a byte already has never changes the byte,
    // and flipping one bit never moves any other
    for b in 0u16..=255 {
        let b = b as u8;
        for n in 0u8..8 {
            let mut same = b;
            set_bit(&mut same, n, get_bit(b, n) == 1);
            assert_eq!(same, b);

            let mut toggled = b;
            set_bit(&mut toggled, n, get_bit(b, n) == 0);
            assert_eq!(get_bit(toggled, n), 1 - get_bit(b, n));
            for m in 0u8..8 {
                if m != n {
                    assert_eq!(get_bit(toggled, m), get_bit(b, m));
                }
            }
        }
    }
}

#[test]
fn get_bits_extracts_fields() {
    let byte: u8 = 0b0110_1001;
    assert_eq!(get_bits(byte, 0, 4), 0b1001);
    assert_eq!(get_bits(byte, 4, 4), 0b0110);
    assert_eq!(get_bits(byte, 3, 3), 0b101);
    assert_eq!(get_bits(byte, 0, 8), byte);
}

#[test]
fn set_bits_replaces_only_the_field() {
    let mut byte: u8 = 0b1111_1111;
    set_bits(&mut byte, 2, 3, 0b000);
    assert_eq!(byte, 0b1110_0011);
    let mut byte: u8 = 0b0000_0000;
    set_bits(&mut byte, 4, 2, 0b11);
    assert_eq!(byte, 0b0011_0000);
}

#[test]
fn full_byte_field_replaces_the_whole_byte() {
    let mut byte: u8 = 0b1100_0011;
    set_bits(&mut byte, 0, 8, 0x5a);
    assert_eq!(byte, 0x5a);
    assert_eq!(get_bits(byte, 0, 8), 0x5a);
}

#[test]
fn set_bits_truncates_wide_values() {
    // bits of the value beyond the field length are ignored, not rejected
    let mut byte: u8 = 0;
    set_bits(&mut byte, 1, 2, 0b1111);
    assert_eq!(byte, 0b0000_0110);
    assert_eq!(get_bits(byte, 1, 2), 0b11);
}

#[test]
fn set_bits_then_get_bits_is_value_mod_field_size() {
    for b in [0u8, 0x5a, 0xff] {
        for start in 0u8..8 {
            for length in 1u8..=(8 - start) {
                for v in [0u8, 1, 0b101, 0x7f, 0xff] {
                    let mut w = b;
                    set_bits(&mut w, start, length, v);
                    let expected = (v as u16 % (1u16 << length)) as u8;
                    assert_eq!(get_bits(w, start, length), expected);
                    for m in 0u8..8 {
                        if m < start || m >= start + length {
                            assert_eq!(get_bit(w, m), get_bit(b, m));
                        }
                    }
                }
            }
        }
    }
}
