use treice::syscall::format_address;
use treice::text::{decimal_text, hexadecimal_text, int_text, join, signed_decimal_text};

#[test]
fn format_address_of_zero_is_null() {
    assert_eq!(format_address(0), "NULL");
}

#[test]
fn format_address_is_lowercase_hex_without_padding() {
    assert_eq!(format_address(1), "0x1");
    assert_eq!(format_address(0x7ffd_1234_abcd), "0x7ffd1234abcd");
    assert_eq!(format_address(u64::MAX), "0xffffffffffffffff");
    assert_eq!(format_address(0x10), "0x10");
}

#[test]
fn decimal_text_matches_display() {
    assert_eq!(decimal_text(0), "0");
    assert_eq!(decimal_text(7), "7");
    assert_eq!(decimal_text(10), "10");
    assert_eq!(decimal_text(1234567890), "1234567890");
    assert_eq!(decimal_text(u64::MAX), "18446744073709551615");
}

#[test]
fn hexadecimal_text_matches_lower_hex() {
    assert_eq!(hexadecimal_text(0), "0");
    assert_eq!(hexadecimal_text(255), "ff");
    assert_eq!(hexadecimal_text(0xdead_beef), "deadbeef");
}

#[test]
fn signed_decimal_text_reads_twos_complement() {
    // Deliberate: a register is taken as a signed 64-bit integer in two's
    // complement, so that its upper half counts and its top bit is the sign.
    assert_eq!(signed_decimal_text(0), "0");
    assert_eq!(signed_decimal_text(3), "3");
    assert_eq!(signed_decimal_text((-2i64) as u64), "-2");
    assert_eq!(signed_decimal_text(u64::MAX), "-1");
    assert_eq!(signed_decimal_text(i64::MAX as u64), "9223372036854775807");
    assert_eq!(signed_decimal_text(i64::MIN as u64), "-9223372036854775808");
}

#[test]
fn int_text_matches_display() {
    assert_eq!(int_text(0), "0");
    assert_eq!(int_text(-1), "-1");
    assert_eq!(int_text(i32::MAX), "2147483647");
    assert_eq!(int_text(i32::MIN), "-2147483648");
}

#[test]
fn join_puts_the_separator_between_parts() {
    let none: Vec<String> = Vec::new();
    assert_eq!(join(&none, ", "), "");
    assert_eq!(join(&vec![String::from("a")], ", "), "a");
    assert_eq!(
        join(&vec![String::from("a"), String::from(""), String::from("c")], ", "),
        "a, , c"
    );
}
