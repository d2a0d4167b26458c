//! The settings that `config.toml` holds, and the decisions taken when the
//! file is loaded.
use vstd::prelude::*;

verus! {

/// Name of the configuration file, which sits beside the executable.
pub const CONFIG_FILENAME: &'static str = "config.toml";

/// The user's settings.
#[derive(Clone, Debug)]
pub struct Config {
    /// Longest press, in milliseconds, that still counts as a tap.
    pub tap_threshold_ms: u64,
    /// `switch_layout` to rotate through `layouts`; anything else sends `tap_shortcut`.
    pub tap_action: String,
    /// Key names pressed together on a tap, such as `["LWIN", "SPACE"]`.
    pub tap_shortcut: Vec<String>,
    /// Keyboard layout identifiers to rotate through.
    pub layouts: Vec<i32>,
    /// Keep Chinese input methods out of English mode after a layout switch.
    pub no_en: bool,
}

/// Whether `c` holds the documented default settings.
pub open spec fn is_default_config(c: Config) -> bool {
    &&& c.tap_threshold_ms == 300
    &&& c.tap_action@ == "switch_layout"@
    &&& c.tap_shortcut@.len() == 2
    &&& c.tap_shortcut@[0]@ == "LWIN"@
    &&& c.tap_shortcut@[1]@ == "SPACE"@
    &&& c.layouts@ == seq![0x0804i32, 0x0409i32]
    &&& c.no_en
}

impl Default for Config {
    fn default() -> (c: Self)
        ensures
            is_default_config(c),
    {
        let shortcut = vec![String::from_str("LWIN"), String::from_str("SPACE")];
        let layouts = vec![0x0804i32, 0x0409i32];
        Config {
            tap_threshold_ms: 300,
            tap_action: String::from_str("switch_layout"),
            tap_shortcut: shortcut,
            layouts,
            no_en: true,
        }
    }
}

/// The settings in force after a load: those parsed from the file, or the
/// defaults where the file could not be read or parsed.
pub fn choose_config(parsed: Option<Config>) -> (c: Config)
    ensures
        match parsed {
            Some(p) => c == p,
            None => is_default_config(c),
        },
{
    match parsed {
        Some(p) => p,
        None => Config::default(),
    }
}

/// Whether the file must be written with `serialized`: when it could not be
/// read (`file_text` is `None`), or when its text differs from `serialized`,
/// which fills in the settings that it lacked.
pub fn needs_write_back(file_text: Option<&str>, serialized: &str) -> (w: bool)
    ensures
        w == match file_text {
            Some(text) => text@ != serialized@,
            None => true,
        },
{
    match file_text {
        Some(text) => !crate::text::text_eq(text, serialized),
        None => true,
    }
}

/// Whether loading shows the tip about the no-English mode: only when the file
/// could not be read, so that the defaults were just written, and a window is
/// shown.
pub fn shows_no_english_tip(file_was_read: bool, display_gui: bool) -> (t: bool)
    ensures
        t == (!file_was_read && display_gui),
{
    !file_was_read && display_gui
}

} // verus!
