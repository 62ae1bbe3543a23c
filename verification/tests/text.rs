use lorri::text::{render_decimal, render_digits};

#[test]
fn digits_have_no_leading_zeros() {
    assert_eq!(render_digits(0), "0");
    assert_eq!(render_digits(7), "7");
    assert_eq!(render_digits(10), "10");
    assert_eq!(render_digits(1024), "1024");
    assert_eq!(render_digits(u64::MAX), "18446744073709551615");
}

#[test]
fn decimal_carries_a_sign() {
    assert_eq!(render_decimal(0), "0");
    assert_eq!(render_decimal(42), "42");
    assert_eq!(render_decimal(-42), "-42");
    assert_eq!(render_decimal(i32::MAX), "2147483647");
    assert_eq!(render_decimal(i32::MIN), "-2147483648");
}

#[test]
fn decimal_agrees_with_the_standard_rendering() {
    for n in [-1000, -999, -10, -9, -1, 0, 1, 9, 10, 99, 100, 101, 65535] {
        assert_eq!(render_decimal(n), format!("{}", n));
    }
}
