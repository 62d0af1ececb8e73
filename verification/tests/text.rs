use college_directory::text::{
    blank, push_decimal, push_signed_decimal, push_underscored, whitespace,
};

fn decimal(n: u128) -> String {
    let mut out = String::new();
    push_decimal(&mut out, n);
    out
}

fn signed(i: i64) -> String {
    let mut out = String::new();
    push_signed_decimal(&mut out, i);
    out
}

#[test]
fn empty_text_is_blank() {
    assert!(blank(""));
}

#[test]
fn whitespace_only_text_is_blank() {
    assert!(blank("   "));
    assert!(blank(" \t\r\n"));
    assert!(blank("\u{a0}\u{3000}\u{2003}"));
}

#[test]
fn text_with_a_letter_is_not_blank() {
    assert!(!blank(" a "));
    assert!(!blank("Pune"));
    assert!(!blank("\u{200b}"));
}

#[test]
fn whitespace_agrees_with_the_standard_library() {
    let mut code: u32 = 0;
    while code <= 0x10ffff {
        if let Some(c) = char::from_u32(code) {
            assert_eq!(whitespace(c), c.is_whitespace(), "U+{:04X}", code);
        }
        code += 1;
    }
}

#[test]
fn blank_agrees_with_trim() {
    for text in ["", " ", "x", " x", "\n\n", "a b", "\u{2028}", "\u{1680}\u{85}"] {
        assert_eq!(blank(text), text.trim().is_empty(), "{:?}", text);
    }
}

#[test]
fn decimal_of_small_numbers() {
    assert_eq!(decimal(0), "0");
    assert_eq!(decimal(7), "7");
    assert_eq!(decimal(10), "10");
    assert_eq!(decimal(12), "12");
    assert_eq!(decimal(1000), "1000");
}

#[test]
fn decimal_of_the_largest_number() {
    assert_eq!(decimal(u128::MAX), u128::MAX.to_string());
}

#[test]
fn decimal_appends_to_what_is_there() {
    let mut out = String::from("Line ");
    push_decimal(&mut out, 42);
    assert_eq!(out, "Line 42");
}

#[test]
fn signed_decimal_has_a_sign_only_below_zero() {
    assert_eq!(signed(0), "0");
    assert_eq!(signed(999999), "999999");
    assert_eq!(signed(-1), "-1");
    assert_eq!(signed(-2147483648), "-2147483648");
    assert_eq!(signed(i64::MIN), i64::MIN.to_string());
    assert_eq!(signed(i64::MAX), i64::MAX.to_string());
}

#[test]
fn spaces_become_underscores() {
    let mut out = String::from("category_");
    push_underscored(&mut out, "Arts and Science", false);
    assert_eq!(out, "category_Arts_and_Science");
}

#[test]
fn hyphens_stay_unless_asked_for() {
    let mut kept = String::new();
    push_underscored(&mut kept, "Co-Ed College", false);
    assert_eq!(kept, "Co-Ed_College");
    let mut swapped = String::new();
    push_underscored(&mut swapped, "Co-Ed College", true);
    assert_eq!(swapped, "Co_Ed_College");
}
