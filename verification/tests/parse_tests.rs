//! The numeric-prefix grammar and the integer reads built on it.

use kvstore::{numeric_prefix, parse_i32, parse_u8};

#[test]
fn main_it_works() {
    assert_eq!(123u8, parse_u8("123.d").unwrap());
    assert_eq!(123.1, numeric_prefix("123.1d").unwrap().parse::<f32>().unwrap());
    assert_eq!(1230, parse_i32("1230d").unwrap());
    assert_eq!(true, parse_u8("sssd").is_none());
    println!("{:?}", "-12.4".parse::<i32>());
}

#[test]
fn numeric_prefix_takes_the_longest_match() {
    assert_eq!(numeric_prefix("12.34xy").as_deref(), Some("12.34"));
    assert_eq!(numeric_prefix("007leading").as_deref(), Some("007"));
    // A dot with no digit after it is not part of the prefix.
    assert_eq!(numeric_prefix("12.").as_deref(), Some("12"));
    assert_eq!(numeric_prefix("3.x").as_deref(), Some("3"));
    // Only the first fraction belongs to the prefix.
    assert_eq!(numeric_prefix("1.2.3").as_deref(), Some("1.2"));
    // No leading digit, no prefix.
    assert_eq!(numeric_prefix(".5"), None);
    assert_eq!(numeric_prefix(""), None);
    assert_eq!(numeric_prefix("-12.4"), None);
}

#[test]
fn integer_reads_respect_their_bounds() {
    assert_eq!(parse_u8("255z"), Some(255));
    assert_eq!(parse_u8("256"), None);
    assert_eq!(parse_u8("007"), Some(7));
    // A fractional prefix is not an integer.
    assert_eq!(parse_u8("1.5"), None);
    assert_eq!(parse_i32("2147483647"), Some(2147483647));
    assert_eq!(parse_i32("2147483648"), None);
    assert_eq!(parse_i32("0"), Some(0));
}
