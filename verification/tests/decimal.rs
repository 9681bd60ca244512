use proto_ae::decimal::decimal_string;

#[test]
fn single_digits() {
    for n in 0..10usize {
        assert_eq!(decimal_string(n), n.to_string());
    }
    assert_eq!(decimal_string(0), "0");
    assert_eq!(decimal_string(9), "9");
}

#[test]
fn several_digits() {
    assert_eq!(decimal_string(10), "10");
    assert_eq!(decimal_string(99), "99");
    assert_eq!(decimal_string(100), "100");
    assert_eq!(decimal_string(783), "783");
    assert_eq!(decimal_string(1_234_567_890), "1234567890");
}

#[test]
fn agrees_with_display_up_to_the_largest_value() {
    for n in [11usize, 101, 1000, 65_535, 4_294_967_295, usize::MAX - 1, usize::MAX] {
        assert_eq!(decimal_string(n), n.to_string());
    }
}
