//! The greeter's settings: the session to start and the theme's colours.
//!
//! The settings file is optional and so is each of its entries; whatever it
//! leaves out takes its default here.

use vstd::prelude::*;

verus! {

/// Where the settings file is looked for.
pub const CONFIG_PATH: &'static str = "/etc/greetd/grxxt.toml";

/// The session started where the settings name none.
pub const DEFAULT_SESSION: &'static str = "/usr/local/bin/start-hyprland.sh";

/// The default session command line.
pub open spec fn default_session_text() -> Seq<char> {
    "/usr/local/bin/start-hyprland.sh"@
}

/// The default background colour.
pub open spec fn default_background_text() -> Seq<char> {
    "#0b0a13"@
}

/// The default foreground colour.
pub open spec fn default_foreground_text() -> Seq<char> {
    "#f6f1e3"@
}

/// The default accent colour.
pub open spec fn default_accent_text() -> Seq<char> {
    "#f1c35f"@
}

/// The default colour of error messages.
pub open spec fn default_error_text() -> Seq<char> {
    "#d14b64"@
}

/// The greeter's settings.
#[derive(Debug)]
pub struct Config {
    /// The command line of the session to start.
    pub session: String,
    /// The colours of the screen.
    pub theme: ThemeConfig,
}

/// The colours of the screen, each written as `#rrggbb`.
#[derive(Debug)]
pub struct ThemeConfig {
    pub background: String,
    pub foreground: String,
    pub accent: String,
    pub error: String,
}

/// What a settings file held: each entry that it set.
#[derive(Debug)]
pub struct ConfigFile {
    pub session: Option<String>,
    pub theme: Option<ThemeFile>,
}

/// What the theme table of a settings file held: each colour that it set.
#[derive(Debug)]
pub struct ThemeFile {
    pub background: Option<String>,
    pub foreground: Option<String>,
    pub accent: Option<String>,
    pub error: Option<String>,
}

/// An entry of a settings file, or its default where the file left it out.
pub open spec fn entry_or(entry: Option<String>, default: Seq<char>) -> Seq<char> {
    match entry {
        Some(s) => s@,
        None => default,
    }
}

/// A theme whose colours are those of `theme` where it sets them and the
/// defaults elsewhere; `None` stands for a file without a theme table.
pub open spec fn theme_settled(t: ThemeConfig, theme: Option<ThemeFile>) -> bool {
    match theme {
        Some(f) => {
            &&& t.background@ == entry_or(f.background, default_background_text())
            &&& t.foreground@ == entry_or(f.foreground, default_foreground_text())
            &&& t.accent@ == entry_or(f.accent, default_accent_text())
            &&& t.error@ == entry_or(f.error, default_error_text())
        },
        None => {
            &&& t.background@ == default_background_text()
            &&& t.foreground@ == default_foreground_text()
            &&& t.accent@ == default_accent_text()
            &&& t.error@ == default_error_text()
        },
    }
}

/// The settings that a file gives; `None` stands for a file that could not
/// be read or parsed, which gives every default.
pub open spec fn config_settled(c: Config, file: Option<ConfigFile>) -> bool {
    match file {
        Some(f) => {
            &&& c.session@ == entry_or(f.session, default_session_text())
            &&& theme_settled(c.theme, f.theme)
        },
        None => {
            &&& c.session@ == default_session_text()
            &&& theme_settled(c.theme, None)
        },
    }
}

/// The default session command line.
pub fn default_session() -> (r: String)
    ensures
        r@ == default_session_text(),
{
    String::from_str("/usr/local/bin/start-hyprland.sh")
}

/// The default background colour.
pub fn default_background() -> (r: String)
    ensures
        r@ == default_background_text(),
{
    String::from_str("#0b0a13")
}

/// The default foreground colour.
pub fn default_foreground() -> (r: String)
    ensures
        r@ == default_foreground_text(),
{
    String::from_str("#f6f1e3")
}

/// The default accent colour.
pub fn default_accent() -> (r: String)
    ensures
        r@ == default_accent_text(),
{
    String::from_str("#f1c35f")
}

/// The default colour of error messages.
pub fn default_error() -> (r: String)
    ensures
        r@ == default_error_text(),
{
    String::from_str("#d14b64")
}

fn entry_or_default(entry: Option<String>, default: String) -> (r: String)
    ensures
        r@ == entry_or(entry, default@),
{
    match entry {
        Some(s) => s,
        None => default,
    }
}

impl Default for ThemeConfig {
    fn default() -> (r: ThemeConfig)
        ensures
            theme_settled(r, None),
    {
        ThemeConfig {
            background: default_background(),
            foreground: default_foreground(),
            accent: default_accent(),
            error: default_error(),
        }
    }
}

impl Default for Config {
    fn default() -> (r: Config)
        ensures
            config_settled(r, None),
    {
        Config { session: default_session(), theme: ThemeConfig::default() }
    }
}

impl ThemeConfig {
    /// The theme that a theme table gives, with the defaults for the colours
    /// that it leaves out.
    pub fn from_file(file: ThemeFile) -> (r: ThemeConfig)
        ensures
            theme_settled(r, Some(file)),
    {
        ThemeConfig {
            background: entry_or_default(file.background, default_background()),
            foreground: entry_or_default(file.foreground, default_foreground()),
            accent: entry_or_default(file.accent, default_accent()),
            error: entry_or_default(file.error, default_error()),
        }
    }
}

impl Config {
    /// Settles the settings from what the settings file held, or from the
    /// defaults alone where it could not be read or parsed (`None`).
    pub fn load(file: Option<ConfigFile>) -> (r: Config)
        ensures
            config_settled(r, file),
    {
        match file {
            None => Config::default(),
            Some(f) => {
                let theme = match f.theme {
                    Some(t) => ThemeConfig::from_file(t),
                    None => ThemeConfig::default(),
                };
                Config { session: entry_or_default(f.session, default_session()), theme }
            },
        }
    }
}

} // verus!
