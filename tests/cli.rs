use kmon::cli::{
    command_line, parse_args, parse_tick_rate, resolve_options, CliErrorKind, SortMode, DEFAULT_COLOR,
};

fn args(list: &[&str]) -> Vec<String> {
    list.iter().map(|a| a.to_string()).collect()
}

#[test]
fn test_parse_args() {
    let options = parse_args(&args(&["kmon"])).unwrap();
    assert_eq!(options.color, "darkgray");
    assert_eq!(options.tick_rate_ms, 250);
    let help = parse_args(&args(&["kmon", "--help"])).unwrap_err();
    assert_eq!(true, help.message.lines().count() > 1);
}

#[test]
fn defaults_when_nothing_is_given() {
    let options = parse_args(&args(&["kmon"])).unwrap();
    assert_eq!(options.color, DEFAULT_COLOR);
    assert_eq!(options.tick_rate_ms, 250);
    assert!(!options.reverse);
    assert!(!options.sort_by_size);
    assert!(!options.sort_by_name);
    assert_eq!(options.sort_mode(), SortMode::Unsorted);
}

#[test]
fn short_flags_and_sort_subcommand() {
    let options =
        parse_args(&args(&["kmon", "-c", "red", "-t", "100", "-r", "sort", "-s", "-n"])).unwrap();
    assert_eq!(options.color, "red");
    assert_eq!(options.tick_rate_ms, 100);
    assert!(options.reverse);
    assert!(options.sort_by_size);
    assert!(options.sort_by_name);
    assert_eq!(options.sort_mode(), SortMode::BySize);
}

#[test]
fn long_flags() {
    let options = parse_args(&args(&[
        "kmon", "--color", "#ff0000", "--tickrate", "500", "--reverse", "sort", "--name",
    ]))
    .unwrap();
    assert_eq!(options.color, "#ff0000");
    assert_eq!(options.tick_rate_ms, 500);
    assert!(options.reverse);
    assert!(!options.sort_by_size);
    assert!(options.sort_by_name);
    assert_eq!(options.sort_mode(), SortMode::ByName);
}

#[test]
fn help_is_multi_line_and_shows_the_usage() {
    let e = parse_args(&args(&["kmon", "--help"])).unwrap_err();
    assert_eq!(e.kind, CliErrorKind::HelpShown);
    assert!(e.message.lines().count() > 1);
    assert!(e.message.contains("Press '?' while running the app to see key bindings"));
    assert!(e.message.contains("--tickrate"));
}

#[test]
fn version_request() {
    let e = parse_args(&args(&["kmon", "--version"])).unwrap_err();
    assert_eq!(e.kind, CliErrorKind::VersionShown);
    assert!(e.message.is_empty());
}

#[test]
fn unknown_flag_is_a_usage_error() {
    let e = parse_args(&args(&["kmon", "--bogus"])).unwrap_err();
    assert_eq!(e.kind, CliErrorKind::Usage);
}

#[test]
fn missing_value_is_a_usage_error() {
    let e = parse_args(&args(&["kmon", "--color"])).unwrap_err();
    assert_eq!(e.kind, CliErrorKind::Usage);
    let e = parse_args(&args(&["kmon", "-r", "-t"])).unwrap_err();
    assert_eq!(e.kind, CliErrorKind::Usage);
}

#[test]
fn unknown_subcommand_is_a_usage_error() {
    let e = parse_args(&args(&["kmon", "order"])).unwrap_err();
    assert_eq!(e.kind, CliErrorKind::Usage);
}

#[test]
fn non_numeric_tick_rate_is_rejected() {
    let e = parse_args(&args(&["kmon", "-t", "fast"])).unwrap_err();
    assert_eq!(e.kind, CliErrorKind::InvalidTickRate);
    assert_eq!(e.message, "invalid tick rate: fast");
}

#[test]
fn tick_rate_text() {
    assert_eq!(parse_tick_rate("250"), Some(250));
    assert_eq!(parse_tick_rate("007"), Some(7));
    assert_eq!(parse_tick_rate("18446744073709551615"), Some(u64::MAX));
    assert_eq!(parse_tick_rate("18446744073709551616"), None);
    assert_eq!(parse_tick_rate("0"), None);
    assert_eq!(parse_tick_rate(""), None);
    assert_eq!(parse_tick_rate("+5"), None);
    assert_eq!(parse_tick_rate("12ms"), None);
    assert_eq!(parse_tick_rate(" 12"), None);
}

#[test]
fn resolve_with_nothing_given() {
    let options = resolve_options(None, None, false, false, false).unwrap();
    assert_eq!(options.color, "darkgray");
    assert_eq!(options.tick_rate_ms, 250);
    assert!(!options.reverse);
    assert_eq!(options.sort_mode(), SortMode::Unsorted);
}

#[test]
fn resolve_with_values() {
    let options =
        resolve_options(Some("blue".to_string()), Some("40".to_string()), true, false, true)
            .unwrap();
    assert_eq!(options.color, "blue");
    assert_eq!(options.tick_rate_ms, 40);
    assert!(options.reverse);
    assert_eq!(options.sort_mode(), SortMode::ByName);
}

#[test]
fn resolve_rejects_zero_tick_rate() {
    let e = resolve_options(None, Some("0".to_string()), false, false, false).unwrap_err();
    assert_eq!(e.kind, CliErrorKind::InvalidTickRate);
    assert_eq!(e.message, "invalid tick rate: 0");
}

#[test]
fn declaration_of_the_command_line() {
    let cli = command_line();
    let top: Vec<(&str, &str, &str, bool)> =
        cli.args.iter().map(|d| (d.name, d.short, d.long, d.takes_value)).collect();
    assert_eq!(
        top,
        vec![
            ("color", "c", "color", true),
            ("rate", "t", "tickrate", true),
            ("reverse", "r", "reverse", false),
        ]
    );
    assert_eq!(cli.sub_name, "sort");
    let sort: Vec<(&str, &str, &str, bool)> =
        cli.sub_args.iter().map(|d| (d.name, d.short, d.long, d.takes_value)).collect();
    assert_eq!(sort, vec![("size", "s", "size", false), ("name", "n", "name", false)]);
}

#[test]
fn help_shows_the_author() {
    let e = parse_args(&args(&["kmon", "-h"])).unwrap_err();
    assert_eq!(e.kind, CliErrorKind::HelpShown);
    assert!(e.message.contains("Orhun"));
}

#[test]
fn repeated_flag_is_a_usage_error() {
    let e = parse_args(&args(&["kmon", "-r", "-r"])).unwrap_err();
    assert_eq!(e.kind, CliErrorKind::Usage);
}

#[test]
fn help_subcommand_shows_help() {
    let e = parse_args(&args(&["kmon", "help"])).unwrap_err();
    assert_eq!(e.kind, CliErrorKind::HelpShown);
    assert!(e.message.lines().count() > 1);
}
