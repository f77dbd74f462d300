use pomodoro::text::digit_str;
use pomodoro::text::push_decimal;
use pomodoro::text::push_two_digits;

fn decimal(n: u64) -> String {
    let mut out = String::new();
    push_decimal(&mut out, n);
    out
}

fn two_digits(n: u64) -> String {
    let mut out = String::new();
    push_two_digits(&mut out, n);
    out
}

#[test]
fn digits_have_their_own_text() {
    let all: Vec<&str> = (0..10).map(digit_str).collect();
    assert_eq!(all, vec!["0", "1", "2", "3", "4", "5", "6", "7", "8", "9"]);
}

#[test]
fn decimal_text_has_no_leading_zeros() {
    assert_eq!(decimal(0), "0");
    assert_eq!(decimal(7), "7");
    assert_eq!(decimal(10), "10");
    assert_eq!(decimal(105), "105");
    assert_eq!(decimal(4_294_967_295), "4294967295");
    assert_eq!(decimal(u64::MAX), "18446744073709551615");
}

#[test]
fn two_digit_text_pads_below_ten_only() {
    assert_eq!(two_digits(0), "00");
    assert_eq!(two_digits(9), "09");
    assert_eq!(two_digits(10), "10");
    assert_eq!(two_digits(99), "99");
    assert_eq!(two_digits(100), "100");
}

#[test]
fn pushing_appends_to_what_is_there() {
    let mut out = String::from("t=");
    push_two_digits(&mut out, 5);
    out.push(':');
    push_decimal(&mut out, 42);
    assert_eq!(out, "t=05:42");
}
