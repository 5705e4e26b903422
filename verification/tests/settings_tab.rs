use plantbuddy::settings::{
    predefined_style, SettingsMessage, SettingsTab, TabBarPosition, TabBarStyles, TabSettings,
};

#[test]
fn test_tab_settings_new() {
    let settings = TabSettings::new();
    assert_eq!(settings.tab_bar_position, Some(TabBarPosition::Top));
    assert_eq!(settings.tab_bar_theme, Some(TabBarStyles::Green));
}

#[test]
fn test_settings_tab_new() {
    let settings_tab = SettingsTab::new();
    assert_eq!(settings_tab.settings().tab_bar_position, Some(TabBarPosition::Top));
    assert_eq!(settings_tab.settings().tab_bar_theme, Some(TabBarStyles::Green));
}

#[test]
fn test_settings_tab_update_position() {
    let mut settings_tab = SettingsTab::new();
    settings_tab.update(SettingsMessage::PositionSelected(TabBarPosition::Bottom));
    assert_eq!(settings_tab.settings().tab_bar_position, Some(TabBarPosition::Bottom));
}

#[test]
fn test_settings_tab_update_theme() {
    let mut settings_tab = SettingsTab::new();
    settings_tab.update(SettingsMessage::ThemeSelected(TabBarStyles::Red));
    assert_eq!(settings_tab.settings().tab_bar_theme, Some(TabBarStyles::Red));
}

#[test]
fn test_settings_tab_title() {
    let settings_tab = SettingsTab::new();
    assert_eq!(settings_tab.title(), String::from("Settings"));
}

#[test]
fn test_predefined_style() {
    assert_eq!(predefined_style(0), TabBarStyles::Default);
    assert_eq!(predefined_style(1), TabBarStyles::Red);
    assert_eq!(predefined_style(2), TabBarStyles::Blue);
    assert_eq!(predefined_style(3), TabBarStyles::Green);
    assert_eq!(predefined_style(4), TabBarStyles::Purple);
    assert_eq!(predefined_style(100), TabBarStyles::Default);
}

#[test]
fn one_setting_does_not_change_the_other() {
    let mut settings_tab = SettingsTab::new();
    settings_tab.update(SettingsMessage::ThemeSelected(TabBarStyles::Purple));
    settings_tab.update(SettingsMessage::PositionSelected(TabBarPosition::Bottom));
    assert_eq!(settings_tab.settings().tab_bar_theme, Some(TabBarStyles::Purple));
    assert_eq!(settings_tab.settings().tab_bar_position, Some(TabBarPosition::Bottom));
}

#[test]
fn position_names() {
    assert_eq!(TabBarPosition::Top.name(), "Top");
    assert_eq!(TabBarPosition::Bottom.name(), "Bottom");
    assert_eq!(TabBarPosition::all(), [TabBarPosition::Top, TabBarPosition::Bottom]);
    assert_eq!(TabBarPosition::default(), TabBarPosition::Top);
}

#[test]
fn tab_bar_starts_at_the_top_in_green() {
    let tab = SettingsTab::new();
    assert_eq!(tab.tab_bar_position(), TabBarPosition::Top);
    assert_eq!(tab.tab_bar_style(), TabBarStyles::Green);
}
