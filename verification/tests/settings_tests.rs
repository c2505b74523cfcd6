//! Tests for the settings record, its defaults, the host entries and the
//! settings menu.

use sesh::hosts::HostConfig;
use sesh::settings::{
    IntegrationSettings, KeyBindings, NavigationSettings, ScreenSettings, Settings, UiSettings,
};
use sesh::settings_menu::{
    apply_setting, get_settings_for_category, SettingValue, SettingsCategory,
};

#[test]
fn test_default_settings() {
    let settings = Settings::default();
    assert!(settings.ui.show_preview);
    assert!(settings.navigation.vim_keys);
    assert_eq!(settings.screen.attach_mode, "exec");
}

#[test]
fn test_default_ui_settings() {
    let ui = UiSettings::default();
    assert_eq!(ui.theme, "dark");
    assert!(ui.show_preview);
    assert_eq!(ui.preview_lines, 8);
    assert_eq!(ui.refresh_interval_ms, 1000);
}

#[test]
fn test_default_navigation_settings() {
    let nav = NavigationSettings::default();
    assert!(nav.vim_keys);
    assert!(nav.arrow_keys);
    assert!(nav.mouse_enabled);
}

#[test]
fn test_default_screen_settings() {
    let screen = ScreenSettings::default();
    assert!(screen.socket_dir.is_none());
    assert!(screen.default_shell.is_none());
    assert_eq!(screen.attach_mode, "exec");
    assert!(screen.spawn_terminal.is_some());
}

#[test]
fn test_default_integration_settings() {
    let integrations = IntegrationSettings::default();
    assert!(integrations.git_status);
    assert!(integrations.fzf_enabled);
    assert!(!integrations.shell_hooks);
}

#[test]
fn test_default_keybindings() {
    let keys = KeyBindings::default();
    assert!(keys.quit.contains(&"q".to_string()));
    assert!(keys.up.contains(&"k".to_string()));
    assert!(keys.down.contains(&"j".to_string()));
    assert!(keys.search.contains(&"/".to_string()));
}

#[test]
fn test_host_config() {
    let host = HostConfig::new("prod", "example.com")
        .with_user("deploy")
        .with_port(22);

    assert_eq!(host.name, "prod");
    assert_eq!(host.connection_string(), "deploy@example.com");
}

#[test]
fn test_host_config_identity_file() {
    let host = HostConfig::new("dev", "10.0.0.1").with_identity_file("~/.ssh/id_ed25519");
    assert_eq!(host.identity_file, Some("~/.ssh/id_ed25519".to_string()));
    assert_eq!(host.connection_string(), "10.0.0.1");
}

#[test]
fn test_settings_categories() {
    let cats = SettingsCategory::all();
    assert_eq!(cats.len(), 5);
    assert_eq!(cats[0].name(), "General");
    assert_eq!(cats[3].name(), "SSH Hosts");
}

#[test]
fn test_settings_items_general() {
    let settings = Settings::default();
    let items = get_settings_for_category(&settings, SettingsCategory::General);
    assert_eq!(items.len(), 4);
    assert_eq!(items[0].key, "ui.theme");
    assert_eq!(items[0].value.display(), "dark");
    assert_eq!(items[1].key, "ui.show_preview");
    assert_eq!(items[1].value.display(), "Yes");
    assert_eq!(items[2].value.display(), "8");
}

#[test]
fn test_setting_value_display() {
    assert_eq!(SettingValue::Bool(true).display(), "Yes");
    assert_eq!(SettingValue::Bool(false).display(), "No");
    assert_eq!(SettingValue::Text(String::new()).display(), "(not set)");
    assert_eq!(SettingValue::Text("zsh".to_string()).display(), "zsh");
    assert_eq!(SettingValue::Number(-42).display(), "-42");
    assert_eq!(SettingValue::Number(500).display(), "500");
}

#[test]
fn test_setting_value_toggle() {
    let mut v = SettingValue::Bool(false);
    v.toggle();
    assert_eq!(v.display(), "Yes");
    v.toggle();
    assert_eq!(v.display(), "No");

    let mut c = SettingValue::Choice(
        "dark".to_string(),
        vec!["dark".to_string(), "light".to_string()],
    );
    c.toggle();
    assert_eq!(c.display(), "light");
    c.toggle();
    assert_eq!(c.display(), "dark");

    let mut n = SettingValue::Number(3);
    n.toggle();
    assert_eq!(n.display(), "3");
}

#[test]
fn test_apply_setting() {
    let mut settings = Settings::default();
    apply_setting(
        &mut settings,
        "ui.show_preview",
        &SettingValue::Bool(false),
    );
    assert!(!settings.ui.show_preview);

    apply_setting(
        &mut settings,
        "ui.theme",
        &SettingValue::Text("light".to_string()),
    );
    assert_eq!(settings.ui.theme, "light");

    apply_setting(
        &mut settings,
        "screen.default_shell",
        &SettingValue::Text(String::new()),
    );
    assert!(settings.screen.default_shell.is_none());

    apply_setting(&mut settings, "ui.preview_lines", &SettingValue::Number(12));
    assert_eq!(settings.ui.preview_lines, 12);

    // An unknown key changes nothing.
    let before = settings.ui.theme.clone();
    apply_setting(&mut settings, "no.such.key", &SettingValue::Bool(true));
    assert_eq!(settings.ui.theme, before);
}
