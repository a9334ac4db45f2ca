use eruption::color::scale_channel;

#[test]
fn scale_full_brightness_is_identity() {
    for c in 0..=255u8 {
        assert_eq!(scale_channel(c, 100), c);
    }
}

#[test]
fn scale_zero_brightness_is_dark() {
    for c in 0..=255u8 {
        assert_eq!(scale_channel(c, 0), 0);
    }
}

#[test]
fn scale_stays_in_range_for_valid_inputs() {
    for b in 0..=100i32 {
        for c in 0..=255u8 {
            let s = scale_channel(c, b);
            assert!(s <= c);
            let expected = ((c as i64 * b as i64 + 50) / 100) as u8;
            assert_eq!(s, expected);
        }
    }
}

#[test]
fn scale_rounds_halves_up() {
    assert_eq!(scale_channel(255, 50), 128);
    assert_eq!(scale_channel(5, 70), 4);
    assert_eq!(scale_channel(1, 49), 0);
    assert_eq!(scale_channel(1, 50), 1);
}

#[test]
fn scale_clamps_out_of_range_brightness() {
    assert_eq!(scale_channel(200, 200), 255);
    assert_eq!(scale_channel(100, 150), 150);
    assert_eq!(scale_channel(200, -5), 0);
    assert_eq!(scale_channel(255, i32::MAX), 255);
    assert_eq!(scale_channel(255, i32::MIN), 0);
}
