use agent::text::{
    chars_of, contains_chars, has_suffix, push_decimal, push_digits, push_text, same_text,
};

fn chars(s: &str) -> Vec<char> {
    s.chars().collect()
}

#[test]
fn chars_of_reads_characters_not_bytes() {
    assert_eq!(chars_of("h\u{e9}llo"), vec!['h', '\u{e9}', 'l', 'l', 'o']);
    assert_eq!(chars_of(""), Vec::<char>::new());
}

#[test]
fn same_text_compares_characters() {
    assert!(same_text("abc", "abc"));
    assert!(same_text("", ""));
    assert!(!same_text("abc", "abd"));
    assert!(!same_text("abc", "ab"));
}

#[test]
fn contains_chars_finds_runs() {
    assert!(contains_chars(&chars("brave browser"), &chars("browser")));
    assert!(contains_chars(&chars("brave browser"), &chars("")));
    assert!(contains_chars(&chars("abc"), &chars("abc")));
    assert!(contains_chars(&chars("abc"), &chars("c")));
    assert!(!contains_chars(&chars("abc"), &chars("abcd")));
    assert!(!contains_chars(&chars("brave browser"), &chars("brow ser")));
    assert!(contains_chars(&chars(""), &chars("")));
    assert!(!contains_chars(&chars(""), &chars("a")));
}

#[test]
fn has_suffix_checks_the_end() {
    assert!(has_suffix(&chars("setup.msi"), &chars(".msi")));
    assert!(!has_suffix(&chars("setup.msi"), &chars(".ms")));
    assert!(!has_suffix(&chars("si"), &chars(".msi")));
    assert!(has_suffix(&chars("x"), &chars("")));
}

#[test]
fn push_text_appends() {
    let mut text = String::from("a");
    push_text(&mut text, "bc");
    push_text(&mut text, "");
    assert_eq!(text, "abc");
}

#[test]
fn decimal_notation_of_integers() {
    let mut text = String::from("n=");
    push_decimal(&mut text, 0);
    assert_eq!(text, "n=0");
    let mut text = String::new();
    push_decimal(&mut text, -1);
    push_text(&mut text, ",");
    push_decimal(&mut text, 1603);
    push_text(&mut text, ",");
    push_decimal(&mut text, i32::MIN);
    push_text(&mut text, ",");
    push_decimal(&mut text, i32::MAX);
    assert_eq!(text, "-1,1603,-2147483648,2147483647");
    let mut text = String::new();
    push_digits(&mut text, u64::MAX);
    assert_eq!(text, "18446744073709551615");
}
