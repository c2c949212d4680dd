use zcode_pet::text::{
    chars_lt, chars_of, decimal_string, err_str, pet_id_is_valid, push_hex_padded, text_eq,
    urlencoding_path_segment,
};
use zcode_pet::zcode::normalize_data_dir;

/// Trims through a public entry point: `None` stands for a blank result.
fn trim(s: &str) -> String {
    normalize_data_dir(&Some(s.to_string())).unwrap_or_default()
}

#[test]
fn pet_ids_allow_lowercase_digits_and_dashes() {
    assert!(pet_id_is_valid("ice-tea-hooper"));
    assert!(pet_id_is_valid("uploaded-0123456789abcdef"));
    assert!(pet_id_is_valid(""));
    assert!(!pet_id_is_valid("Cat"));
    assert!(!pet_id_is_valid("a.b"));
    assert!(!pet_id_is_valid("a/b"));
    assert!(!pet_id_is_valid("猫"));
}

#[test]
fn segment_keeps_letters_digits_dash_underscore() {
    assert_eq!(urlencoding_path_segment("Ab_9-z"), "Ab_9-z");
    assert_eq!(urlencoding_path_segment("a b/c?d"), "a_b_c_d");
    assert_eq!(urlencoding_path_segment("猫"), "_");
    assert_eq!(urlencoding_path_segment(""), "");
}

#[test]
fn sanitising_twice_changes_nothing() {
    let once = urlencoding_path_segment("../../etc/passwd");
    assert_eq!(once, "______etc_passwd");
    assert_eq!(urlencoding_path_segment(&once), once);
}

#[test]
fn trim_removes_unicode_whitespace() {
    assert_eq!(trim("  a b \t\n"), "a b");
    assert_eq!(trim("\u{3000}x\u{a0}"), "x");
    assert_eq!(trim("   "), "");
}

#[test]
fn decimal_formats_like_to_string() {
    assert_eq!(decimal_string(0), "0");
    assert_eq!(decimal_string(7), "7");
    assert_eq!(decimal_string(1234567890), "1234567890");
    assert_eq!(decimal_string(u64::MAX), u64::MAX.to_string());
}

#[test]
fn hex_pads_to_width() {
    let mut s = String::from("x-");
    push_hex_padded(&mut s, 0xabc, 16);
    assert_eq!(s, "x-0000000000000abc");
    let mut t = String::new();
    push_hex_padded(&mut t, u128::MAX, 16);
    assert_eq!(t, format!("{:016x}", u128::MAX));
    let mut z = String::new();
    push_hex_padded(&mut z, 0, 4);
    assert_eq!(z, "0000");
}

#[test]
fn text_comparisons() {
    assert!(text_eq("abc", "abc"));
    assert!(!text_eq("abc", "abd"));
    assert_eq!(chars_of("猫a"), vec!['猫', 'a']);
    assert!(chars_lt(&chars_of("ab"), &chars_of("b")));
    assert!(chars_lt(&chars_of("a"), &chars_of("ab")));
    assert!(!chars_lt(&chars_of("ab"), &chars_of("ab")));
    assert!(chars_lt(&chars_of("Z"), &chars_of("a")));
}

#[test]
fn trimming_twice_is_trimming_once() {
    for s in ["  a  ", "\t\u{2003}x y\u{205f}", "", "   ", "z"] {
        assert_eq!(trim(&trim(s)), trim(s));
    }
}

#[test]
fn errors_become_their_message() {
    assert_eq!(err_str("boom"), "boom");
    assert_eq!(err_str(42), "42");
}
