use roblox_discord_presence::paths::{join, roblox, roblox_logs, Platform};
use roblox_discord_presence::settings::Settings;

#[test]
fn logs_directory_on_each_platform() {
    assert_eq!(
        roblox_logs(Some("/home/ann"), Platform::Linux),
        Some("/home/ann/.local/share/Roblox/logs".to_string())
    );
    assert_eq!(
        roblox_logs(Some("/Users/ann"), Platform::MacOs),
        Some("/Users/ann/Library/Application Support/Roblox/logs".to_string())
    );
    assert_eq!(
        roblox_logs(Some("C:\\Users\\ann"), Platform::Windows),
        Some("C:\\Users\\ann\\AppData/Local/Roblox\\logs".to_string())
    );
}

#[test]
fn data_directory_on_each_platform() {
    assert_eq!(
        roblox(Some("/home/ann"), Platform::Linux),
        Some("/home/ann/.local/share/Roblox".to_string())
    );
    assert_eq!(
        roblox(Some("/Users/ann"), Platform::MacOs),
        Some("/Users/ann/Library/Application Support/Roblox".to_string())
    );
    assert_eq!(
        roblox(Some("C:\\Users\\ann"), Platform::Windows),
        Some("C:\\Users\\ann\\AppData/Local/Roblox".to_string())
    );
}

#[test]
fn without_a_home_there_is_no_directory() {
    assert_eq!(roblox(None, Platform::Linux), None);
    assert_eq!(roblox_logs(None, Platform::Windows), None);
}

#[test]
fn join_puts_one_separator_between() {
    assert_eq!(join("/a", "b", Platform::Linux), "/a/b");
    assert_eq!(join("/a/", "b", Platform::Linux), "/a/b");
    assert_eq!(join("/", "b", Platform::MacOs), "/b");
    assert_eq!(join("", "b", Platform::Linux), "b");
    assert_eq!(join("C:\\a", "b", Platform::Windows), "C:\\a\\b");
    assert_eq!(join("C:\\a\\", "b", Platform::Windows), "C:\\a\\b");
    assert_eq!(join("C:/a/", "b", Platform::Windows), "C:/a/b");
    // A backslash is an ordinary character elsewhere.
    assert_eq!(join("/a\\", "b", Platform::Linux), "/a\\/b");
}

#[test]
fn default_settings_switch_nothing_on() {
    let settings = Settings::default();
    assert!(!settings.auto_start);
    assert!(!settings.show_console);
    assert_eq!(settings.custom_status_template, None);
}

#[test]
fn settings_file_lies_below_the_configuration_directory() {
    assert_eq!(
        Settings::config_path("/home/ann/.config", Platform::Linux),
        "/home/ann/.config/roblox_discord_presence/settings.toml"
    );
    assert_eq!(
        Settings::config_path("C:\\Users\\ann\\AppData\\Roaming", Platform::Windows),
        "C:\\Users\\ann\\AppData\\Roaming\\roblox_discord_presence\\settings.toml"
    );
}

#[test]
fn settings_dialog_message() {
    let mut settings = Settings::default();
    settings.show_console = true;
    assert_eq!(
        settings.dialog_message("/cfg/settings.toml"),
        "Roblox Discord Presence Settings\n\nAuto Start: false\nShow Console: true\n\nTo modify settings, please edit:\n/cfg/settings.toml\n\nOr restart the application to load updated settings."
    );
}
