//! What the user can set, and where the settings are kept.

use vstd::prelude::*;
use vstd::string::StringExecFns;

use crate::paths::{join, joined, Platform};

verus! {

/// What the user can set.
#[derive(Debug, Clone, PartialEq, Eq)]
pub struct Settings {
    pub auto_start: bool,
    pub show_console: bool,
    pub custom_status_template: Option<String>,
}

impl Default for Settings {
    /// The settings of a fresh installation: nothing is switched on.
    fn default() -> (settings: Self)
        ensures
            !settings.auto_start,
            !settings.show_console,
            settings.custom_status_template is None,
    {
        Settings { auto_start: false, show_console: false, custom_status_template: None }
    }
}

/// The path of the settings file below the configuration directory
/// `config_dir`.
pub open spec fn config_path_text(config_dir: Seq<char>, platform: Platform) -> Seq<char> {
    joined(joined(config_dir, "roblox_discord_presence"@, platform), "settings.toml"@, platform)
}

/// How a switch is written out.
pub open spec fn switch_text(on: bool) -> Seq<char> {
    if on {
        "true"@
    } else {
        "false"@
    }
}

/// What the settings dialog says of `settings`, kept in the file at
/// `config_path`.
pub open spec fn dialog_text(settings: Settings, config_path: Seq<char>) -> Seq<char> {
    "Roblox Discord Presence Settings\n\nAuto Start: "@ + switch_text(settings.auto_start)
        + "\nShow Console: "@ + switch_text(settings.show_console)
        + "\n\nTo modify settings, please edit:\n"@ + config_path
        + "\n\nOr restart the application to load updated settings."@
}

impl Settings {
    /// What the settings dialog says of these settings, kept in the file
    /// at `config_path`.
    pub fn dialog_message(&self, config_path: &str) -> (message: String)
        ensures
            message@ == dialog_text(*self, config_path@),
    {
        let mut message = "Roblox Discord Presence Settings\n\nAuto Start: ".to_owned();
        message.append(if self.auto_start {
            "true"
        } else {
            "false"
        });
        message.append("\nShow Console: ");
        message.append(if self.show_console {
            "true"
        } else {
            "false"
        });
        message.append("\n\nTo modify settings, please edit:\n");
        message.append(config_path);
        message.append("\n\nOr restart the application to load updated settings.");
        message
    }

    /// The path of the settings file, given the user's configuration
    /// directory.
    pub fn config_path(config_dir: &str, platform: Platform) -> (path: String)
        ensures
            path@ == config_path_text(config_dir@, platform),
    {
        let dir = join(config_dir, "roblox_discord_presence", platform);
        join(dir.as_str(), "settings.toml", platform)
    }
}

} // verus!
