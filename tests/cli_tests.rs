use wallp::profile::{
    add_path_to_profile_content, create_export_line, get_shell_files, is_path_in_profile,
    remove_path_from_profile_content, shell_escape, shell_from_env,
};
use wallp::{
    custom_collection_label, describe_collection, format_interval_for_display,
    get_default_collections_info, get_exe_name, mask_access_key, parse_interval, retention_label,
    Commands, Navigation,
};

#[test]
fn test_get_shell_files_bash() {
    let (rc, profile) = get_shell_files("bash");
    assert_eq!(rc, ".bashrc");
    assert_eq!(profile, ".bash_profile");
}

#[test]
fn test_get_shell_files_zsh() {
    let (rc, profile) = get_shell_files("zsh");
    assert_eq!(rc, ".zshrc");
    assert_eq!(profile, ".zprofile");
}

#[test]
fn test_create_export_line() {
    let line = create_export_line("/home/user/.config/wallp");
    assert_eq!(line, r#"export PATH="$PATH:/home/user/.config/wallp""#);
}

#[test]
fn test_create_export_line_with_spaces() {
    let line = create_export_line("/home/user/My Documents/wallp");
    assert_eq!(line, r#"export PATH="$PATH:/home/user/My Documents/wallp""#);
}

#[test]
fn test_add_path_to_profile_empty() {
    let result = add_path_to_profile_content("", "/home/user/.config/wallp");
    assert!(result.contains(r#"export PATH="$PATH:/home/user/.config/wallp""#));
    assert!(result.contains("# Wallp"));
}

#[test]
fn test_add_path_to_profile_existing() {
    let existing = r#"export PATH="$PATH:/usr/bin"
export EDITOR=vim"#;
    let result = add_path_to_profile_content(existing, "/home/user/.config/wallp");
    assert!(result.contains(r#"export PATH="$PATH:/usr/bin""#));
    assert!(result.contains(r#"export PATH="$PATH:/home/user/.config/wallp""#));
    assert!(result.contains("# Wallp"));
}

#[test]
fn test_add_path_to_profile_already_exists() {
    let existing = r#"export PATH="$PATH:/home/user/.config/wallp"
export EDITOR=vim"#;
    let result = add_path_to_profile_content(existing, "/home/user/.config/wallp");
    let count = result
        .matches("export PATH=\"$PATH:/home/user/.config/wallp\"")
        .count();
    assert_eq!(count, 1);
}

#[test]
fn test_remove_path_from_profile() {
    let existing = r#"export PATH="$PATH:/usr/bin"
# Wallp
export PATH="$PATH:/home/user/.config/wallp"
export EDITOR=vim"#;
    let result = remove_path_from_profile_content(existing, "/home/user/.config/wallp");
    assert!(!result.contains("/home/user/.config/wallp"));
    assert!(!result.contains("# Wallp"));
    assert!(result.contains("/usr/bin"));
    assert!(result.contains("EDITOR=vim"));
}

#[test]
fn test_remove_path_not_present() {
    let existing = r#"export PATH="$PATH:/usr/bin"
export EDITOR=vim"#;
    let result = remove_path_from_profile_content(existing, "/home/user/.config/wallp");
    assert_eq!(result, existing);
}

#[test]
fn test_is_path_in_profile_true() {
    let content = r#"export PATH="$PATH:/home/user/.config/wallp"
export EDITOR=vim"#;
    assert!(is_path_in_profile(content, "/home/user/.config/wallp"));
}

#[test]
fn test_is_path_in_profile_false() {
    let content = r#"export PATH="$PATH:/usr/bin"
export EDITOR=vim"#;
    assert!(!is_path_in_profile(content, "/home/user/.config/wallp"));
}

#[test]
fn test_is_path_in_profile_partial_match() {
    let content = r#"export PATH="$PATH:/home/user/.config/wallp2""#;
    assert!(!is_path_in_profile(content, "/home/user/.config/wallp"));
}

#[test]
fn test_path_with_spaces() {
    let line = create_export_line("/home/user/My Documents/wallp");
    let content = "";
    let result = add_path_to_profile_content(content, "/home/user/My Documents/wallp");
    assert!(result.contains(&line));
    assert!(line.contains("My Documents"));
}

#[test]
fn test_path_with_quotes() {
    let escaped = shell_escape("/path/with\"quote");
    assert_eq!(escaped, r#"/path/with\"quote"#);
}

#[test]
fn test_path_with_dollar() {
    let escaped = shell_escape("/path/$HOME/wallp");
    assert_eq!(escaped, r"/path/\$HOME/wallp");
}

#[test]
fn test_multiple_wallp_entries() {
    let existing = r#"# Wallp
export PATH="$PATH:/home/user/.config/wallp"
# Wallp
export PATH="$PATH:/home/user/.config/wallp"
export EDITOR=vim"#;
    let result = remove_path_from_profile_content(existing, "/home/user/.config/wallp");
    assert!(!result.contains("/home/user/.config/wallp"));
    assert!(!result.contains("# Wallp"));
    assert!(result.contains("EDITOR=vim"));
}

#[test]
fn test_shell_escape_preserves_slashes() {
    let escaped = shell_escape("/home/user/.config/wallp");
    assert!(escaped.contains("/home/user/.config/wallp"));
}

#[test]
fn add_path_appends_marker_and_line_exactly() {
    let result = add_path_to_profile_content("alias ll='ls -l'", "/opt/bin");
    assert_eq!(
        result,
        "alias ll='ls -l'\n# Wallp\nexport PATH=\"$PATH:/opt/bin\"\n"
    );
    assert!(is_path_in_profile(&result, "/opt/bin"));
}

#[test]
fn path_line_found_despite_surrounding_whitespace_and_crlf() {
    let content = "a\r\n   export PATH=\"$PATH:/opt/bin\"  \r\nb";
    assert!(is_path_in_profile(content, "/opt/bin"));
}

#[test]
fn remove_path_drops_carriage_returns_and_final_newline() {
    let content = "one\r\n# Wallp\r\nexport PATH=\"$PATH:/opt/bin\"\r\ntwo\n";
    assert_eq!(remove_path_from_profile_content(content, "/opt/bin"), "one\ntwo");
    assert_eq!(remove_path_from_profile_content("", "/opt/bin"), "");
}

#[test]
fn shell_escape_escapes_both_characters() {
    assert_eq!(shell_escape("a\"b$c"), "a\\\"b\\$c");
    assert_eq!(shell_escape(""), "");
}

#[test]
fn shell_from_env_picks_zsh_or_bash() {
    assert_eq!(shell_from_env("/usr/bin/zsh"), "zsh");
    assert_eq!(shell_from_env("/bin/bash"), "bash");
    assert_eq!(shell_from_env(""), "bash");
}

#[test]
fn group_index_of_each_command() {
    assert_eq!(Commands::New.group_index(), 0);
    assert_eq!(Commands::SetIndex { index: None }.group_index(), 0);
    assert_eq!(Commands::Info.group_index(), 0);
    assert_eq!(Commands::Status.group_index(), 1);
    assert_eq!(Commands::Config.group_index(), 1);
    assert_eq!(Commands::Setup.group_index(), 2);
    assert_eq!(Commands::Uninstall.group_index(), 2);
}

#[test]
fn commands_map_to_navigation() {
    assert_eq!(Commands::Next.navigation(), Some(Navigation::Next));
    assert_eq!(Commands::Prev.navigation(), Some(Navigation::Prev));
    assert_eq!(Commands::New.navigation(), Some(Navigation::New));
    assert_eq!(
        Commands::SetIndex { index: Some(4) }.navigation(),
        Some(Navigation::SetByIndex(4))
    );
    assert_eq!(Commands::SetIndex { index: None }.navigation(), None);
    assert_eq!(Commands::List.navigation(), None);
}

#[test]
fn exe_name_per_platform() {
    assert_eq!(get_exe_name(true), "wallp.exe");
    assert_eq!(get_exe_name(false), "wallp");
}

#[test]
fn parse_interval_units() {
    assert_eq!(parse_interval("90"), Ok(90));
    assert_eq!(parse_interval("  45m "), Ok(45));
    assert_eq!(parse_interval("12h"), Ok(720));
    assert_eq!(parse_interval("1D"), Ok(1440));
    assert_eq!(parse_interval("+2d"), Ok(2880));
}

#[test]
fn parse_interval_errors() {
    assert_eq!(parse_interval("   "), Err("Empty input".to_string()));
    assert_eq!(parse_interval("xh"), Err("Invalid number".to_string()));
    assert_eq!(parse_interval("5"), Ok(5));
    assert_eq!(
        parse_interval("5w"),
        Err("Use: d (days), h (hours), m (minutes)".to_string())
    );
    assert_eq!(
        parse_interval("18446744073709551615d"),
        Err("Interval too large".to_string())
    );
    assert_eq!(parse_interval("-5m"), Err("Invalid number".to_string()));
}

#[test]
fn format_interval_picks_largest_unit() {
    assert_eq!(format_interval_for_display(1440), "1d");
    assert_eq!(format_interval_for_display(3000), "2d");
    assert_eq!(format_interval_for_display(720), "12h");
    assert_eq!(format_interval_for_display(60), "1h");
    assert_eq!(format_interval_for_display(45), "45m");
    assert_eq!(format_interval_for_display(0), "0m");
}

#[test]
fn default_collections_and_labels() {
    let defaults = get_default_collections_info();
    assert_eq!(defaults.len(), 3);
    assert_eq!(defaults[0], ("1065976".to_string(), "Wallpapers".to_string()));
    assert_eq!(defaults[2], ("894".to_string(), "Earth & Planets".to_string()));
    let custom = vec![
        ("42".to_string(), "Cats".to_string()),
        ("3330448".to_string(), "Shadowed".to_string()),
    ];
    assert_eq!(describe_collection("3330448", &custom), "Nature");
    assert_eq!(describe_collection("42", &custom), "Cats");
    assert_eq!(describe_collection("7", &custom), "Unknown");
}

#[test]
fn access_key_masking() {
    assert_eq!(mask_access_key(""), "Not set");
    assert_eq!(mask_access_key("abcdefgh"), "****efgh");
    assert_eq!(mask_access_key("xy"), "****xy");
}

#[test]
fn retention_labels() {
    assert_eq!(retention_label(None), "Forever");
    assert_eq!(retention_label(Some(0)), "Delete immediately");
    assert_eq!(retention_label(Some(14)), "14 days");
}

#[test]
fn custom_collection_labels() {
    assert_eq!(custom_collection_label("12", ""), "Collection 12");
    assert_eq!(custom_collection_label("12", "Collection 12"), "Collection 12");
    assert_eq!(custom_collection_label("12", "Mountains"), "Mountains");
}

#[test]
fn powershell_escape_quotes_backticks_and_dollars() {
    assert_eq!(wallp::powershell_escape("C:\\a\"b`c$d"), "C:\\a\"\"b``c`$d");
    assert_eq!(wallp::powershell_escape("plain"), "plain");
}

#[test]
fn parse_interval_lowered_reads_units() {
    assert_eq!(wallp::parse_interval_lowered("3h"), Ok(180));
    assert_eq!(wallp::parse_interval_lowered("2d"), Ok(2880));
    assert_eq!(wallp::parse_interval_lowered("7"), Ok(7));
    assert_eq!(
        wallp::parse_interval_lowered("3H"),
        Err("Use: d (days), h (hours), m (minutes)".to_string())
    );
    assert_eq!(wallp::parse_interval_lowered(""), Err("Empty input".to_string()));
}

#[test]
fn interval_minimum_is_thirty_minutes() {
    assert!(!wallp::interval_allowed(29));
    assert!(wallp::interval_allowed(30));
    assert!(wallp::interval_allowed(1440));
}
