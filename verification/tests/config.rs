//! Tests of the configuration processing: the `try_` override semantics,
//! the write-back commenting, and the defaulting, checked against the
//! real parser on the effective lines.

use localdesktop::config::{
    apply_config_values, default_check, default_install, default_launch, process_config_lines,
    LocalConfig,
};

fn to_lines(content: &str) -> Vec<Vec<u8>> {
    content.lines().map(|l| l.as_bytes().to_vec()).collect()
}

fn join_lines(lines: &[Vec<u8>]) -> String {
    let mut out = String::new();
    for (i, line) in lines.iter().enumerate() {
        if i > 0 {
            out.push('\n');
        }
        out.push_str(std::str::from_utf8(line).unwrap());
    }
    out
}

/// Parse the effective configuration the way the host does: the
/// effective lines are fed to the real parser and the values applied
/// over the defaults.
fn parse_effective(content: &str) -> LocalConfig {
    let processed = process_config_lines(&to_lines(content));
    let effective = join_lines(&processed.effective);
    let table: toml::Table = effective.parse().expect("the effective lines must stay parseable");
    let get = |section: &str, key: &str| -> Option<String> {
        table
            .get(section)
            .and_then(|v| v.as_table())
            .and_then(|t| t.get(key))
            .and_then(|v| v.as_str())
            .map(|s| s.to_string())
    };
    apply_config_values(
        get("user", "username"),
        get("command", "check"),
        get("command", "install"),
        get("command", "launch"),
    )
}

#[test]
fn config_should_handle_configs_without_try() {
    let config = parse_effective(
        r#"
            [user]
            username = "alice"

            [command]
            check = "check-cmd"
            install = "install-cmd"
            launch = "launch-cmd"
        "#,
    );
    assert_eq!(config.user.username, "alice");
    assert_eq!(config.command.check, "check-cmd");
    assert_eq!(config.command.install, "install-cmd");
    assert_eq!(config.command.launch, "launch-cmd");
}

#[test]
fn config_should_handle_configs_with_try() {
    let config = parse_effective(
        r#"
            [user]
            username = "root"
            try_username = "testuser"

            [command]
            check = "check-cmd"
            try_check = "try-check"
            install = "install-cmd"
            launch = "launch-cmd"
        "#,
    );
    assert_eq!(config.user.username, "testuser");
    assert_eq!(config.command.check, "try-check");
    assert_eq!(config.command.install, "install-cmd");
}

#[test]
fn config_should_comment_out_try_configs() {
    let processed = process_config_lines(&to_lines(
        r#"
            username = "root"
            try_username = "commented"

            check = "normal"
            try_check = "try"
        "#,
    ));
    let written = join_lines(&processed.write_back);
    assert!(
        written.contains("# try_username = \"commented\""),
        "`try_username` is not commented out after being applied"
    );
    assert!(
        written.contains("# try_check = \"try\""),
        "`try_check` is not commented out after being  applied"
    );
}

#[test]
fn first_plain_entry_of_a_key_wins() {
    let processed = process_config_lines(&to_lines("a = 1\na = 2\n"));
    let effective = join_lines(&processed.effective);
    assert_eq!(effective, "a=1");
}

#[test]
fn later_try_entry_overrides_earlier_one() {
    let processed = process_config_lines(&to_lines("try_a = 1\ntry_a = 2\n"));
    let effective = join_lines(&processed.effective);
    assert_eq!(effective, "a=2");
}

#[test]
fn missing_values_fall_back_to_defaults() {
    let config = apply_config_values(None, None, None, None);
    assert_eq!(config.user.username, "root");
    assert_eq!(config.command.check, default_check());
    assert_eq!(config.command.install, default_install());
    assert_eq!(config.command.launch, default_launch());
    assert!(default_check().contains("pacman -Q"));
    assert!(default_install().contains("--noconfirm"));
    assert!(default_launch().contains("Xwayland"));
}

#[test]
fn default_config_matches_the_defaults() {
    let config = LocalConfig::default();
    assert_eq!(config.user.username, "root");
    assert_eq!(config.command.check, default_check());
    assert_eq!(config.command.install, default_install());
    assert_eq!(config.command.launch, default_launch());
}
