use grxxt::{Config, ConfigFile, ThemeConfig, ThemeFile, DEFAULT_SESSION};

fn text(t: &toml::Table, key: &str) -> Option<String> {
    t.get(key).and_then(|v| v.as_str()).map(|s| s.to_string())
}

fn settings_from_toml(source: &str) -> Config {
    let table: toml::Table = toml::from_str(source).unwrap();
    let theme = table.get("theme").and_then(|v| v.as_table()).map(|t| ThemeFile {
        background: text(t, "background"),
        foreground: text(t, "foreground"),
        accent: text(t, "accent"),
        error: text(t, "error"),
    });
    Config::load(Some(ConfigFile { session: text(&table, "session"), theme }))
}

#[test]
fn test_default_config() {
    let config = Config::default();
    assert_eq!(config.session, DEFAULT_SESSION);
    assert_eq!(config.theme.background, "#0b0a13");
}

#[test]
fn test_parse_config() {
    let toml = r##"
session = "/bin/bash"

[theme]
background = "#000000"
foreground = "#ffffff"
"##;
    let config = settings_from_toml(toml);
    assert_eq!(config.session, "/bin/bash");
    assert_eq!(config.theme.background, "#000000");
    assert_eq!(config.theme.foreground, "#ffffff");
    // Defaults for unspecified
    assert_eq!(config.theme.accent, "#f1c35f");
}

#[test]
fn unreadable_file_gives_every_default() {
    let config = Config::load(None);
    assert_eq!(config.session, "/usr/local/bin/start-hyprland.sh");
    assert_eq!(config.theme.background, "#0b0a13");
    assert_eq!(config.theme.foreground, "#f6f1e3");
    assert_eq!(config.theme.accent, "#f1c35f");
    assert_eq!(config.theme.error, "#d14b64");
}

#[test]
fn file_without_theme_keeps_default_colours() {
    let config = settings_from_toml("session = \"sway\"\n");
    assert_eq!(config.session, "sway");
    assert_eq!(config.theme.error, "#d14b64");
    assert_eq!(config.theme.foreground, "#f6f1e3");
}

#[test]
fn empty_theme_table_keeps_default_colours() {
    let theme = ThemeConfig::from_file(ThemeFile {
        background: None,
        foreground: None,
        accent: None,
        error: Some("#ff0000".to_string()),
    });
    assert_eq!(theme.background, "#0b0a13");
    assert_eq!(theme.error, "#ff0000");
    let default = ThemeConfig::default();
    assert_eq!(default.accent, "#f1c35f");
}

#[test]
fn default_helpers_give_the_documented_values() {
    assert_eq!(grxxt::default_session(), DEFAULT_SESSION);
    assert_eq!(grxxt::default_background(), "#0b0a13");
    assert_eq!(grxxt::default_foreground(), "#f6f1e3");
    assert_eq!(grxxt::default_accent(), "#f1c35f");
    assert_eq!(grxxt::default_error(), "#d14b64");
    assert_eq!(grxxt::CONFIG_PATH, "/etc/greetd/grxxt.toml");
}
