use thread_triage::text::{
    is_confirmation, is_space, push_decimal, push_signed_decimal, read_i32,
};

fn decimal(n: u128) -> String {
    let mut out = String::new();
    push_decimal(&mut out, n);
    out
}

fn signed(n: i32) -> String {
    let mut out = String::new();
    push_signed_decimal(&mut out, n);
    out
}

#[test]
fn decimal_of_small_numbers() {
    assert_eq!(decimal(0), "0");
    assert_eq!(decimal(7), "7");
    assert_eq!(decimal(9), "9");
    assert_eq!(decimal(10), "10");
    assert_eq!(decimal(1234567890), "1234567890");
}

#[test]
fn decimal_of_the_largest_number() {
    assert_eq!(decimal(u128::MAX), "340282366920938463463374607431768211455");
}

#[test]
fn decimal_is_appended_to_what_is_there() {
    let mut out = String::from("page=");
    push_decimal(&mut out, 42);
    assert_eq!(out, "page=42");
    push_signed_decimal(&mut out, -3);
    assert_eq!(out, "page=42-3");
}

#[test]
fn decimal_agrees_with_the_standard_notation() {
    let mut n: u128 = 1;
    for _ in 0..120 {
        assert_eq!(decimal(n), n.to_string());
        assert_eq!(decimal(n - 1), (n - 1).to_string());
        n = n.wrapping_mul(3).wrapping_add(1);
    }
}

#[test]
fn signed_decimal_has_a_minus_for_negative_numbers_only() {
    assert_eq!(signed(0), "0");
    assert_eq!(signed(15), "15");
    assert_eq!(signed(-15), "-15");
    assert_eq!(signed(i32::MAX), "2147483647");
    assert_eq!(signed(i32::MIN), "-2147483648");
}

#[test]
fn read_i32_reads_plain_numbers() {
    assert_eq!(read_i32("0"), Some(0));
    assert_eq!(read_i32("42"), Some(42));
    assert_eq!(read_i32("007"), Some(7));
    assert_eq!(read_i32("2147483647"), Some(i32::MAX));
}

#[test]
fn read_i32_reads_a_sign() {
    assert_eq!(read_i32("-7"), Some(-7));
    assert_eq!(read_i32("+7"), Some(7));
    assert_eq!(read_i32("-0"), Some(0));
    assert_eq!(read_i32("-2147483648"), Some(i32::MIN));
}

#[test]
fn read_i32_refuses_what_does_not_fit() {
    assert_eq!(read_i32("2147483648"), None);
    assert_eq!(read_i32("-2147483649"), None);
    assert_eq!(read_i32("99999999999999999999999999999999999999"), None);
    assert_eq!(read_i32("-99999999999999999999999999999999999999"), None);
}

#[test]
fn read_i32_refuses_what_is_no_number() {
    assert_eq!(read_i32(""), None);
    assert_eq!(read_i32("-"), None);
    assert_eq!(read_i32("+"), None);
    assert_eq!(read_i32("--1"), None);
    assert_eq!(read_i32("+-1"), None);
    assert_eq!(read_i32("12a"), None);
    assert_eq!(read_i32("a12"), None);
    assert_eq!(read_i32(" 12"), None);
    assert_eq!(read_i32("12 "), None);
    assert_eq!(read_i32("1_000"), None);
    assert_eq!(read_i32("1.5"), None);
    assert_eq!(read_i32("\u{0663}"), None);
    assert_eq!(read_i32("1\u{00e9}"), None);
}

#[test]
fn read_i32_agrees_with_the_standard_parser() {
    let samples = [
        "", "0", "-0", "+0", "1", "-1", "+1", "00012", "-00012", "2147483647", "2147483648",
        "-2147483648", "-2147483649", "4294967296", "x", "1x", "x1", "-", "+", "++1", " 1", "1 ",
        "1\n", "0x10", "1e3", "١٢٣", "12345678901234567890",
    ];
    for s in samples {
        assert_eq!(read_i32(s), s.parse::<i32>().ok(), "{:?}", s);
    }
}

#[test]
fn read_i32_reads_back_what_was_written() {
    for n in [0, 1, -1, 9, 10, -10, 12345, -98765, i32::MAX, i32::MIN] {
        assert_eq!(read_i32(&signed(n)), Some(n));
    }
}

#[test]
fn white_space_is_what_the_standard_library_calls_so() {
    for code in 0..=0x10FFFFu32 {
        if let Some(c) = char::from_u32(code) {
            assert_eq!(is_space(c), c.is_whitespace(), "U+{:04X}", code);
        }
    }
}

#[test]
fn a_lone_y_confirms() {
    assert!(is_confirmation("y"));
}

#[test]
fn white_space_around_the_y_does_not_matter() {
    assert!(is_confirmation("y\n"));
    assert!(is_confirmation("y\r\n"));
    assert!(is_confirmation(" y"));
    assert!(is_confirmation("  y  "));
    assert!(is_confirmation("\ty\t"));
    assert!(is_confirmation("\u{a0}y\u{3000}\n"));
}

#[test]
fn anything_else_does_not_confirm() {
    assert!(!is_confirmation("n"));
    assert!(!is_confirmation("n\n"));
    assert!(!is_confirmation(""));
    assert!(!is_confirmation("\n"));
    assert!(!is_confirmation("   "));
    assert!(!is_confirmation("Y"));
    assert!(!is_confirmation("yes"));
    assert!(!is_confirmation("yy"));
    assert!(!is_confirmation("y y"));
    assert!(!is_confirmation("y\nn"));
    assert!(!is_confirmation("ny"));
    assert!(!is_confirmation("yn"));
    assert!(!is_confirmation("\u{fe0f}y"));
}

#[test]
fn confirmation_agrees_with_trimming() {
    let samples = [
        "y", " y", "y ", "\ny\n", "n", "", " ", "yy", "y y", " y y ", "Y", "\u{2003}y\u{2003}",
        "\u{200b}y", "y\u{0}", "\u{85}y", "ya", "ay",
    ];
    for s in samples {
        assert_eq!(is_confirmation(s), s.trim() == "y", "{:?}", s);
    }
}
