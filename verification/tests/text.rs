use bazaar_realm_client::text::{
    append_decimal, c_string_text, c_string_texts, copy_texts, decimal_string,
};

#[test]
fn decimal_of_small_and_large_numbers() {
    assert_eq!(decimal_string(0), "0");
    assert_eq!(decimal_string(7), "7");
    assert_eq!(decimal_string(10), "10");
    assert_eq!(decimal_string(128), "128");
    assert_eq!(decimal_string(-5), "-5");
    assert_eq!(decimal_string(1_000_000), "1000000");
    assert_eq!(decimal_string(i64::MAX), "9223372036854775807");
    assert_eq!(decimal_string(i64::MIN), "-9223372036854775808");
}

#[test]
fn decimal_agrees_with_the_standard_rendering() {
    let mut n: i64 = -3;
    for _ in 0..60 {
        assert_eq!(decimal_string(n), format!("{}", n));
        n = n.wrapping_mul(-3).wrapping_add(1);
    }
}

#[test]
fn append_decimal_keeps_what_was_there() {
    let mut s = "shop_".to_string();
    append_decimal(&mut s, 42);
    assert_eq!(s, "shop_42");
    append_decimal(&mut s, -1);
    assert_eq!(s, "shop_42-1");
}

#[test]
fn text_without_nul_crosses_unchanged() {
    assert_eq!(c_string_text("Iron Sword"), "Iron Sword");
    assert_eq!(c_string_text(""), "");
    assert_eq!(c_string_text("caf\u{e9} \u{1f5e1}"), "caf\u{e9} \u{1f5e1}");
}

#[test]
fn text_with_nul_crosses_as_the_empty_text() {
    assert_eq!(c_string_text("\0"), "");
    assert_eq!(c_string_text("Iron\0Sword"), "");
    assert_eq!(c_string_text("Iron Sword\0"), "");
}

#[test]
fn texts_cross_one_by_one() {
    let keywords = vec!["VendorItemWeapon".to_string(), "bad\0one".to_string(), String::new()];
    assert_eq!(
        c_string_texts(&keywords),
        vec!["VendorItemWeapon".to_string(), String::new(), String::new()]
    );
    assert_eq!(c_string_texts(&Vec::new()), Vec::<String>::new());
    assert_eq!(copy_texts(&keywords), keywords);
}

#[test]
fn what_crosses_holds_no_nul() {
    for text in ["", "\0", "a\0", "\0a", "a\0b\0c", "plain", "\u{100}\u{0}"] {
        let crossed = c_string_text(text);
        assert!(!crossed.as_bytes().contains(&0));
        assert!(crossed.is_empty() || crossed == text);
    }
}
