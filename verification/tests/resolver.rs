use agent::resolver::{
    find_uninstall_command, score_display_name, select_candidate, UninstallEntry,
};

fn owned(items: &[&str]) -> Vec<String> {
    items.iter().map(|s| s.to_string()).collect()
}

fn entry(name: &str, quiet: Option<&str>, plain: Option<&str>) -> UninstallEntry {
    UninstallEntry {
        display_name: name.to_string(),
        quiet_uninstall: quiet.map(|s| s.to_string()),
        uninstall: plain.map(|s| s.to_string()),
    }
}

#[test]
fn score_counts_keywords_in_lowercase_name() {
    let keywords = owned(&["brave", "browser", "nightly"]);
    assert_eq!(score_display_name(&keywords, "Brave"), 1);
    assert_eq!(score_display_name(&keywords, "Brave Browser"), 2);
    assert_eq!(score_display_name(&keywords, "BRAVE BROWSER NIGHTLY"), 3);
    assert_eq!(score_display_name(&keywords, "Mozilla Firefox"), 0);
    assert_eq!(score_display_name(&keywords, ""), 0);
}

#[test]
fn score_counts_a_repeated_keyword_each_time() {
    assert_eq!(score_display_name(&owned(&["zoom", "zoom"]), "Zoom"), 2);
}

#[test]
fn single_match_does_not_qualify_among_several_keywords() {
    let keywords = owned(&["brave", "browser", "nightly"]);
    let entries = vec![entry("Brave", Some("b.exe /q"), None)];
    assert!(select_candidate(&keywords, &entries).is_none());
}

#[test]
fn two_matches_qualify_and_beat_a_lower_score() {
    let keywords = owned(&["brave", "browser", "nightly"]);
    let entries = vec![
        entry("Brave", None, Some("one.exe")),
        entry("Brave Browser", None, Some("two.exe")),
        entry("Brave Browser Nightly", None, Some("three.exe")),
        entry("Brave Browser Beta", None, Some("four.exe")),
    ];
    let selected = select_candidate(&keywords, &entries).unwrap();
    assert_eq!(selected.display_name, "Brave Browser Nightly");
    assert_eq!(selected.raw_command, "three.exe");
    assert_eq!(selected.score, 3);
    let fewer = vec![entry("Brave", None, Some("one.exe")), entry("Brave Browser", None, Some("two.exe"))];
    assert_eq!(select_candidate(&keywords, &fewer).unwrap().raw_command, "two.exe");
}

#[test]
fn single_keyword_qualifies_with_one_match() {
    let entries = vec![entry("Zoom", None, Some("zoom_uninstall.exe"))];
    assert_eq!(find_uninstall_command("zoom", &entries), Some("zoom_uninstall.exe".to_string()));
    assert_eq!(find_uninstall_command("ZoomInstaller", &entries), Some("zoom_uninstall.exe".to_string()));
}

#[test]
fn ties_keep_the_earlier_entry() {
    let entries = vec![
        entry("Brave Browser", None, Some("first.exe")),
        entry("Brave Browser (user)", None, Some("second.exe")),
    ];
    assert_eq!(find_uninstall_command("BraveBrowserSetup", &entries), Some("first.exe".to_string()));
}

#[test]
fn quiet_command_is_preferred() {
    let entries = vec![entry("Brave Browser", Some("quiet.exe /S"), Some("loud.exe"))];
    assert_eq!(find_uninstall_command("brave-browser", &entries), Some("quiet.exe /S".to_string()));
}

#[test]
fn entry_without_command_is_passed_over() {
    let entries = vec![
        entry("Brave Browser Nightly", None, None),
        entry("Brave Browser", None, Some("two.exe")),
    ];
    assert_eq!(find_uninstall_command("BraveBrowserNightly", &entries), Some("two.exe".to_string()));
}

#[test]
fn nothing_is_found_without_keywords_or_entries() {
    let entries = vec![entry("Setup", None, Some("s.exe")), entry("", None, Some("e.exe"))];
    assert_eq!(find_uninstall_command("Setup_x64", &entries), None);
    assert_eq!(find_uninstall_command("BraveBrowser", &Vec::new()), None);
    assert_eq!(find_uninstall_command("BraveBrowser", &entries), None);
}
