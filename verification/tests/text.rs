use post_store::text::{flag_str, to_decimal};

#[test]
fn decimal_of_single_digits() {
    assert_eq!(to_decimal(0), "0");
    assert_eq!(to_decimal(1), "1");
    assert_eq!(to_decimal(9), "9");
}

#[test]
fn decimal_of_several_digits() {
    assert_eq!(to_decimal(10), "10");
    assert_eq!(to_decimal(99), "99");
    assert_eq!(to_decimal(100), "100");
    assert_eq!(to_decimal(120), "120");
    assert_eq!(to_decimal(1_000_001), "1000001");
    assert_eq!(to_decimal(9_876_543_210), "9876543210");
}

#[test]
fn decimal_of_the_largest_number() {
    assert_eq!(to_decimal(usize::MAX), usize::MAX.to_string());
}

#[test]
fn decimal_agrees_with_std() {
    let mut n: usize = 0;
    while n < 3000 {
        assert_eq!(to_decimal(n), n.to_string());
        n += 7;
    }
}

#[test]
fn flags_are_written_as_words() {
    assert_eq!(flag_str(true), "true");
    assert_eq!(flag_str(false), "false");
}
