use ssh_engine::text::{
    contains, decimal_text, has_prefix, has_suffix, octal_text, str_equal, text_not_after,
    to_chars,
};

#[test]
fn strings_are_equal_when_their_characters_are() {
    assert!(str_equal("connected", "connected"));
    assert!(!str_equal("connected", "connecting"));
    assert!(!str_equal("a", "ab"));
    assert!(str_equal("", ""));
    assert!(str_equal("ключ", "ключ"));
    assert!(!str_equal("ключ", "клюв"));
}

#[test]
fn characters_come_out_in_order() {
    assert_eq!(to_chars("aé€"), vec!['a', 'é', '€']);
    assert_eq!(to_chars(""), Vec::<char>::new());
}

#[test]
fn substrings_are_found_anywhere() {
    assert!(contains("my_id_ed25519_key", "id_ed25519"));
    assert!(contains("id_ed25519", "id_ed25519"));
    assert!(!contains("id_ed2551", "id_ed25519"));
    assert!(contains("abc", ""));
    assert!(contains("", ""));
    assert!(!contains("", "a"));
    assert!(contains("aab", "ab"));
}

#[test]
fn prefixes_and_suffixes() {
    assert!(has_prefix("~/x", "~/"));
    assert!(!has_prefix("x~/", "~/"));
    assert!(has_prefix("abc", ""));
    assert!(!has_prefix("a", "ab"));
    assert!(has_suffix("id_rsa.pub", ".pub"));
    assert!(!has_suffix("id_rsa.pub.bak", ".pub"));
    assert!(!has_suffix("pub", ".pub"));
    assert!(has_suffix(".pub", ".pub"));
}

#[test]
fn numbers_in_decimal() {
    assert_eq!(decimal_text(0), "0");
    assert_eq!(decimal_text(7), "7");
    assert_eq!(decimal_text(22), "22");
    assert_eq!(decimal_text(65535), "65535");
    assert_eq!(decimal_text(u64::MAX), "18446744073709551615");
}

#[test]
fn numbers_in_octal() {
    assert_eq!(octal_text(0), "0");
    assert_eq!(octal_text(8), "10");
    assert_eq!(octal_text(0o644), "644");
    assert_eq!(octal_text(0o100755), "100755");
    assert_eq!(octal_text(u32::MAX as u64), format!("{:o}", u32::MAX));
}

#[test]
fn the_order_of_strings_is_that_of_std() {
    let words = ["", "a", "A", "ab", "b", "Zebra", "apple", "é", "z", "日本", "a b", "a-b"];
    for a in words {
        for b in words {
            assert_eq!(text_not_after(a, b), a <= b, "{:?} against {:?}", a, b);
        }
    }
}
