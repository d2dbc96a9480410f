//! Exact decimal rendering of ids and fixed-point amounts.

use toy_payments::render::{amount_string, bool_string, client_string, u64_string};

#[test]
fn digits_of_unsigned_numbers() {
    assert_eq!(u64_string(0), "0");
    assert_eq!(u64_string(7), "7");
    assert_eq!(u64_string(10), "10");
    assert_eq!(u64_string(65535), "65535");
    assert_eq!(u64_string(4294967295), "4294967295");
    assert_eq!(client_string(1), "1");
}

#[test]
fn amounts_trim_trailing_zeros() {
    assert_eq!(amount_string(0), "0.0");
    assert_eq!(amount_string(251100), "25.11");
    assert_eq!(amount_string(250000), "25.0");
    assert_eq!(amount_string(1100), "0.11");
    assert_eq!(amount_string(123), "0.0123");
    assert_eq!(amount_string(1), "0.0001");
    assert_eq!(amount_string(10000), "1.0");
    assert_eq!(amount_string(10500), "1.05");
}

#[test]
fn amounts_render_signs_and_extremes() {
    assert_eq!(amount_string(-424200), "-42.42");
    assert_eq!(amount_string(-1), "-0.0001");
    assert_eq!(amount_string(i64::MAX), "922337203685477.5807");
    assert_eq!(amount_string(i64::MIN), "-922337203685477.5808");
}

#[test]
fn lock_flags() {
    assert_eq!(bool_string(true), "true");
    assert_eq!(bool_string(false), "false");
}
