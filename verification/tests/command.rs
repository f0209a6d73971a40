use agent::command::{parse_command_string, split_args};

fn owned(items: &[&str]) -> Vec<String> {
    items.iter().map(|s| s.to_string()).collect()
}

#[test]
fn split_args_keeps_quoted_run_together() {
    assert_eq!(split_args("/S \"--flag value\""), owned(&["/S", "--flag value"]));
}

#[test]
fn split_args_of_empty_input_is_empty() {
    assert_eq!(split_args(""), Vec::<String>::new());
    assert_eq!(split_args("   \t "), Vec::<String>::new());
}

#[test]
fn split_args_drops_empty_quotes() {
    assert_eq!(split_args("a \"\" b"), owned(&["a", "b"]));
}

#[test]
fn split_args_joins_quoted_and_bare_parts() {
    assert_eq!(split_args("\"a b\"c  d"), owned(&["a bc", "d"]));
}

#[test]
fn split_args_unclosed_quote_runs_to_the_end() {
    assert_eq!(split_args("/q \"x y"), owned(&["/q", "x y"]));
}

#[test]
fn split_args_splits_on_any_whitespace() {
    assert_eq!(split_args("a\tb\nc\u{a0}d"), owned(&["a", "b", "c", "d"]));
}

#[test]
fn parse_command_string_quoted_executable() {
    let (exe, tail) = parse_command_string("\"C:\\Program Files\\App\\unins000.exe\" /VERYSILENT");
    assert_eq!(exe, "C:\\Program Files\\App\\unins000.exe");
    assert_eq!(tail, "/VERYSILENT");
}

#[test]
fn parse_command_string_bare_executable() {
    let (exe, tail) = parse_command_string("uninstall.exe /S");
    assert_eq!(exe, "uninstall.exe");
    assert_eq!(tail, "/S");
}

#[test]
fn parse_command_string_without_arguments() {
    assert_eq!(parse_command_string("uninstall.exe"), ("uninstall.exe".to_string(), String::new()));
    assert_eq!(parse_command_string("\"C:\\a b\\u.exe\""), ("C:\\a b\\u.exe".to_string(), String::new()));
    assert_eq!(parse_command_string(""), (String::new(), String::new()));
}

#[test]
fn parse_command_string_trims_the_input() {
    assert_eq!(parse_command_string("  u.exe /S /X  "), ("u.exe".to_string(), "/S /X".to_string()));
}

#[test]
fn parse_command_string_unclosed_quote_splits_at_space() {
    assert_eq!(parse_command_string("\"C:\\a b"), ("\"C:\\a".to_string(), "b".to_string()));
}

#[test]
fn parse_command_string_keeps_later_spaces_in_tail() {
    assert_eq!(parse_command_string("u.exe  /S"), ("u.exe".to_string(), " /S".to_string()));
    assert_eq!(parse_command_string("\"u.exe\"   /S  /T"), ("u.exe".to_string(), "/S  /T".to_string()));
}
