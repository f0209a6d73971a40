use agent::keywords::{extract_keywords, split_words, stop_word};

fn owned(items: &[&str]) -> Vec<String> {
    items.iter().map(|s| s.to_string()).collect()
}

#[test]
fn extract_keywords_from_camel_case_name() {
    let mut keywords = extract_keywords("BraveBrowserStandaloneSilentNightlySetup");
    keywords.sort();
    assert_eq!(keywords, owned(&["brave", "browser", "nightly"]));
}

#[test]
fn extract_keywords_keeps_the_order_of_the_name() {
    assert_eq!(extract_keywords("Nightly_brave-Browser.setup"), owned(&["nightly", "brave", "browser"]));
}

#[test]
fn extract_keywords_drops_short_words_and_platform_tags() {
    assert_eq!(extract_keywords("7z x64 win VLC"), Vec::<String>::new());
    assert_eq!(extract_keywords("Zoom_x86_windows_Installer"), owned(&["zoom"]));
}

#[test]
fn extract_keywords_counts_characters_not_bytes() {
    assert_eq!(extract_keywords("\u{e9}a"), Vec::<String>::new());
    assert_eq!(extract_keywords("\u{e9}ab"), owned(&["\u{e9}ab"]));
}

#[test]
fn extract_keywords_keeps_repeated_words() {
    assert_eq!(extract_keywords("zoom zoom"), owned(&["zoom", "zoom"]));
}

#[test]
fn split_words_splits_at_every_uppercase_letter() {
    assert_eq!(split_words("VLCPlayer"), owned(&["v", "l", "c", "player"]));
    assert_eq!(split_words("my--app..v2"), owned(&["my", "app", "v2"]));
    assert_eq!(split_words(""), Vec::<String>::new());
}

#[test]
fn stop_word_knows_the_packaging_noise() {
    for word in ["standalone", "silent", "setup", "installer", "install", "x64", "x86", "win", "windows"] {
        assert!(stop_word(word));
    }
    assert!(!stop_word("brave"));
    assert!(!stop_word("Setup"));
}
