use wg_vankey::text::starts_with;
use wg_vankey::text::string_to_static_str;

#[test]
fn a_leaked_string_keeps_its_characters() {
    let leaked: &'static str = string_to_static_str(String::from("test"));
    assert_eq!(leaked, "test");
    assert_eq!(string_to_static_str(String::new()), "");
    assert_eq!(string_to_static_str("straße ^t[o0]ast".to_string()), "straße ^t[o0]ast");
}

#[test]
fn starts_with_compares_the_first_characters() {
    assert!(starts_with("avaXk3", "ava"));
    assert!(starts_with("avaXk3", "avaXk3"));
    assert!(starts_with("avaXk3", ""));
    assert!(starts_with("", ""));
    assert!(!starts_with("avaXk3", "avaXk3+"));
    assert!(!starts_with("avaXk3", "avb"));
    assert!(!starts_with("avaXk3", "Ava"));
    assert!(!starts_with("avaXk3", "va"));
    assert!(!starts_with("", "a"));
}

#[test]
fn starts_with_agrees_with_the_standard_library() {
    let texts = ["", "a", "ab", "abc", "ABC", "straße", "strasse", "é", "e\u{301}", "日本語", "日本", "+/=", "a\0b"];
    for text in texts {
        for prefix in texts {
            assert_eq!(starts_with(text, prefix), text.starts_with(prefix));
        }
    }
}
