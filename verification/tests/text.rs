use app_core::text::decimal;

#[test]
fn single_digits_are_written() {
    assert_eq!(decimal(0), "0");
    assert_eq!(decimal(7), "7");
    assert_eq!(decimal(9), "9");
}

#[test]
fn several_digits_are_written_most_significant_first() {
    assert_eq!(decimal(10), "10");
    assert_eq!(decimal(65536), "65536");
    assert_eq!(decimal(1_234_567_890), "1234567890");
}

#[test]
fn largest_number_is_written() {
    assert_eq!(decimal(u32::MAX), "4294967295");
}

#[test]
fn decimal_agrees_with_the_standard_text() {
    for n in [0u32, 1, 9, 10, 11, 99, 100, 101, 999, 1000, 65535, 65536, 4_000_000_000] {
        assert_eq!(decimal(n), format!("{}", n));
    }
}
