use tonlabs_cli::text::{decimal_string, prefixed};

#[test]
fn decimal_of_zero_is_one_digit() {
    assert_eq!(decimal_string(0), "0");
}

#[test]
fn decimal_of_single_digits() {
    assert_eq!(decimal_string(7), "7");
    assert_eq!(decimal_string(9), "9");
}

#[test]
fn decimal_has_no_leading_zero() {
    assert_eq!(decimal_string(10), "10");
    assert_eq!(decimal_string(1234), "1234");
    assert_eq!(decimal_string(9999), "9999");
    assert_eq!(decimal_string(100_000), "100000");
}

#[test]
fn decimal_of_largest_number() {
    assert_eq!(decimal_string(u64::MAX), "18446744073709551615");
    assert_eq!(decimal_string(u32::MAX as u64), "4294967295");
}

#[test]
fn decimal_agrees_with_std() {
    let mut n: u64 = 1;
    while n < u64::MAX / 7 {
        assert_eq!(decimal_string(n), format!("{}", n));
        n = n * 7 + 3;
    }
}

#[test]
fn prefixed_joins_both_parts() {
    assert_eq!(prefixed("run failed: ", "timeout"), "run failed: timeout");
    assert_eq!(prefixed("", "verbatim"), "verbatim");
    assert_eq!(prefixed("only", ""), "only");
}
