use inventory_http::number::{decimal_int_string, decimal_string, read_i32_text, IntError};
use inventory_http::text::{chars_of, find_char, is_whitespace, skip_spaces, skip_token,
    starts_with, string_of, string_of_range, trim_range, replaced};

#[test]
fn chars_and_strings_round_trip() {
    let v = chars_of("héllo wörld");
    assert_eq!(v.len(), 11);
    assert_eq!(string_of(&v), "héllo wörld");
    assert_eq!(string_of_range(&v, 6, 11), "wörld");
    assert_eq!(string_of_range(&v, 3, 3), "");
}

#[test]
fn whitespace_is_the_unicode_property() {
    let mut code: u32 = 0;
    while code <= 0x10FFFF {
        if let Some(c) = char::from_u32(code) {
            assert_eq!(is_whitespace(c), c.is_whitespace(), "code point {:#x}", code);
        }
        code += 1;
    }
}

#[test]
fn find_char_gives_first_occurrence_or_end() {
    let v = chars_of("a=b=c");
    assert_eq!(find_char(&v, 0, 5, '='), 1);
    assert_eq!(find_char(&v, 2, 5, '='), 3);
    assert_eq!(find_char(&v, 4, 5, '='), 5);
    assert_eq!(find_char(&v, 0, 1, '='), 1);
    assert_eq!(find_char(&v, 0, 0, '='), 0);
}

#[test]
fn trim_range_drops_white_space_at_both_ends() {
    let v = chars_of(" \t hello world\r\n");
    assert_eq!(trim_range(&v, 0, v.len()), (3, 14));
    let blank = chars_of("  \u{2003} ");
    let (a, b) = trim_range(&blank, 0, blank.len());
    assert_eq!(a, b);
    let none = chars_of("x");
    assert_eq!(trim_range(&none, 0, 1), (0, 1));
    for text in ["", " ", "a", " a", "a ", " a b ", "\u{a0}x\u{3000}", "\n\n", "a\tb"] {
        let v = chars_of(text);
        let (a, b) = trim_range(&v, 0, v.len());
        assert_eq!(string_of_range(&v, a, b), text.trim());
    }
}

#[test]
fn skipping_spaces_and_words() {
    let v = chars_of("  GET /x");
    assert_eq!(skip_spaces(&v, 0, v.len()), 2);
    assert_eq!(skip_token(&v, 2, v.len()), 5);
    assert_eq!(skip_spaces(&v, 5, v.len()), 6);
    assert_eq!(skip_token(&v, 6, v.len()), 8);
    assert_eq!(skip_token(&v, 8, v.len()), 8);
}

#[test]
fn starts_with_compares_character_by_character() {
    assert!(starts_with(&chars_of("/edit-tech/4"), &chars_of("/edit-tech/")));
    assert!(starts_with(&chars_of("/edit-tech/"), &chars_of("/edit-tech/")));
    assert!(!starts_with(&chars_of("/edit-tech"), &chars_of("/edit-tech/")));
    assert!(!starts_with(&chars_of("/edit-teck/4"), &chars_of("/edit-tech/")));
    assert!(starts_with(&chars_of("abc"), &chars_of("")));
}

#[test]
fn replaced_turns_every_occurrence() {
    let v = chars_of("a+b++c");
    assert_eq!(string_of(&replaced(&v, 0, v.len(), '+', ' ')), "a b  c");
    assert_eq!(string_of(&replaced(&v, 2, 4, '+', ' ')), "b ");
}

#[test]
fn read_i32_accepts_signs_and_digits_only() {
    assert_eq!(read_i32_text("0"), Ok(0));
    assert_eq!(read_i32_text("42"), Ok(42));
    assert_eq!(read_i32_text("+42"), Ok(42));
    assert_eq!(read_i32_text("-42"), Ok(-42));
    assert_eq!(read_i32_text("-0"), Ok(0));
    assert_eq!(read_i32_text("007"), Ok(7));
    assert_eq!(read_i32_text("2147483647"), Ok(i32::MAX));
    assert_eq!(read_i32_text("-2147483648"), Ok(i32::MIN));
}

#[test]
fn read_i32_gives_each_error() {
    assert_eq!(read_i32_text(""), Err(IntError::Empty));
    assert_eq!(read_i32_text("+"), Err(IntError::InvalidDigit));
    assert_eq!(read_i32_text("-"), Err(IntError::InvalidDigit));
    assert_eq!(read_i32_text("12a"), Err(IntError::InvalidDigit));
    assert_eq!(read_i32_text(" 12"), Err(IntError::InvalidDigit));
    assert_eq!(read_i32_text("1_000"), Err(IntError::InvalidDigit));
    assert_eq!(read_i32_text("٣"), Err(IntError::InvalidDigit));
    assert_eq!(read_i32_text("2147483648"), Err(IntError::PosOverflow));
    assert_eq!(read_i32_text("-2147483649"), Err(IntError::NegOverflow));
    assert_eq!(read_i32_text("99999999999999999999999"), Err(IntError::PosOverflow));
    assert_eq!(read_i32_text("99999999999999999999999x"), Err(IntError::PosOverflow));
    assert_eq!(read_i32_text("214748364x"), Err(IntError::InvalidDigit));
}

#[test]
fn read_i32_agrees_with_the_standard_parser() {
    let inputs = [
        "", "+", "-", "0", "-0", "+0", "00012", "12", "-12", "+12", "++1", "--1", "+-1", "1+", "1-",
        "a", "1a", "a1", " 1", "1 ", "1.0", "2147483647", "2147483648", "-2147483648",
        "-2147483649", "4294967296", "99999999999", "-99999999999", "99999999999x", "x99999999999",
        "21474836470", "2147483650", "-2147483650", "१२", "1\u{0}",
    ];
    for text in inputs {
        let ours = read_i32_text(text).map_err(|e| e.describe().to_string());
        let theirs = text.parse::<i32>().map_err(|e| e.to_string());
        assert_eq!(ours, theirs, "input {:?}", text);
    }
}

#[test]
fn decimal_strings_have_no_leading_zeros() {
    assert_eq!(decimal_string(0), "0");
    assert_eq!(decimal_string(9), "9");
    assert_eq!(decimal_string(10), "10");
    assert_eq!(decimal_string(1234567890), "1234567890");
    assert_eq!(decimal_string(u64::MAX), "18446744073709551615");
    assert_eq!(decimal_int_string(0), "0");
    assert_eq!(decimal_int_string(-1), "-1");
    assert_eq!(decimal_int_string(i32::MAX), "2147483647");
    assert_eq!(decimal_int_string(i32::MIN), "-2147483648");
}

#[test]
fn writing_then_reading_gives_the_number_back() {
    for n in [0, 1, -1, 9, 10, -10, 99, 100, 12345, -54321, i32::MAX, i32::MIN] {
        assert_eq!(read_i32_text(&decimal_int_string(n)), Ok(n));
    }
}
