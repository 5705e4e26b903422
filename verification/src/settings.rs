//! The settings tab: where the tab bar stands and which colors it has.

use vstd::prelude::*;

verus! {

/// Where the tab bar stands.
#[derive(Debug, Clone, Copy, PartialEq, Eq, Structural)]
pub enum TabBarPosition {
    Top,
    Bottom,
}

impl Default for TabBarPosition {
    fn default() -> (p: Self)
        ensures
            p == TabBarPosition::Top,
    {
        TabBarPosition::Top
    }
}

impl TabBarPosition {
    /// All positions, in the order the settings offer them.
    pub fn all() -> (v: [TabBarPosition; 2])
        ensures
            v@ == seq![TabBarPosition::Top, TabBarPosition::Bottom],
    {
        let v = [TabBarPosition::Top, TabBarPosition::Bottom];
        assert(v@ =~= seq![TabBarPosition::Top, TabBarPosition::Bottom]);
        v
    }
}

/// The name of a position.
pub open spec fn position_name(p: TabBarPosition) -> Seq<char> {
    match p {
        TabBarPosition::Top => "Top"@,
        TabBarPosition::Bottom => "Bottom"@,
    }
}

impl TabBarPosition {
    /// The name of the position, as the settings show it.
    pub fn name(&self) -> (s: String)
        ensures
            s@ == position_name(*self),
    {
        match self {
            TabBarPosition::Top => String::from_str("Top"),
            TabBarPosition::Bottom => String::from_str("Bottom"),
        }
    }
}

/// The color schemes of the tab bar.
#[derive(Debug, Clone, Copy, PartialEq, Eq, Structural)]
pub enum TabBarStyles {
    Default,
    Red,
    Blue,
    Green,
    Purple,
}

/// The settings of the tab bar; `None` stands for "not chosen".
#[derive(Debug, Clone, Copy, PartialEq, Eq, Structural)]
pub struct TabSettings {
    pub tab_bar_position: Option<TabBarPosition>,
    pub tab_bar_theme: Option<TabBarStyles>,
}

impl TabSettings {
    /// The settings the application starts with: tab bar on top, green.
    pub fn new() -> (s: Self)
        ensures
            s.tab_bar_position == Some(TabBarPosition::Top),
            s.tab_bar_theme == Some(TabBarStyles::Green),
    {
        TabSettings {
            tab_bar_position: Some(TabBarPosition::Top),
            tab_bar_theme: Some(TabBarStyles::Green),
        }
    }
}

/// The messages of the settings tab.
#[derive(Debug, Clone, Copy, PartialEq, Eq, Structural)]
pub enum SettingsMessage {
    PositionSelected(TabBarPosition),
    ThemeSelected(TabBarStyles),
}

/// The settings after a choice: the chosen position or color scheme is
/// taken over, the other setting stays.
pub open spec fn settings_after(s: TabSettings, m: SettingsMessage) -> TabSettings {
    match m {
        SettingsMessage::PositionSelected(p) => TabSettings { tab_bar_position: Some(p), ..s },
        SettingsMessage::ThemeSelected(t) => TabSettings { tab_bar_theme: Some(t), ..s },
    }
}

/// The settings tab.
#[derive(Debug)]
pub struct SettingsTab {
    settings: TabSettings,
}

/// The color scheme offered at position `index` of the settings list.
pub open spec fn style_at(index: usize) -> TabBarStyles {
    if index == 1 {
        TabBarStyles::Red
    } else if index == 2 {
        TabBarStyles::Blue
    } else if index == 3 {
        TabBarStyles::Green
    } else if index == 4 {
        TabBarStyles::Purple
    } else {
        TabBarStyles::Default
    }
}

/// The color scheme offered at position `index`: default, red, blue,
/// green, purple, and the default past the end of the list.
pub fn predefined_style(index: usize) -> (s: TabBarStyles)
    ensures
        s == style_at(index),
{
    match index {
        0 => TabBarStyles::Default,
        1 => TabBarStyles::Red,
        2 => TabBarStyles::Blue,
        3 => TabBarStyles::Green,
        4 => TabBarStyles::Purple,
        _ => TabBarStyles::Default,
    }
}

impl SettingsTab {
    /// A settings tab with the initial settings.
    pub fn new() -> (t: Self)
        ensures
            t.settings_of() == TabSettings::new_spec(),
    {
        SettingsTab { settings: TabSettings::new() }
    }

    /// The current settings (specification).
    pub closed spec fn settings_of(&self) -> TabSettings {
        self.settings
    }

    /// The current settings.
    pub fn settings(&self) -> (s: &TabSettings)
        ensures
            *s == self.settings_of(),
    {
        &self.settings
    }

    /// Where the tab bar stands: the chosen position, at the top where
    /// none is chosen.
    pub fn tab_bar_position(&self) -> (p: TabBarPosition)
        ensures
            p == match self.settings_of().tab_bar_position {
                Some(q) => q,
                None => TabBarPosition::Top,
            },
    {
        match self.settings.tab_bar_position {
            Some(q) => q,
            None => TabBarPosition::Top,
        }
    }

    /// The color scheme of the tab bar: the chosen one, the default where
    /// none is chosen.
    pub fn tab_bar_style(&self) -> (t: TabBarStyles)
        ensures
            t == match self.settings_of().tab_bar_theme {
                Some(q) => q,
                None => TabBarStyles::Default,
            },
    {
        match self.settings.tab_bar_theme {
            Some(q) => q,
            None => TabBarStyles::Default,
        }
    }

    /// The title of the tab.
    pub fn title(&self) -> (s: String)
        ensures
            s@ == "Settings"@,
    {
        String::from_str("Settings")
    }

    /// Takes over the chosen position or color scheme; the other setting
    /// stays.
    pub fn update(&mut self, message: SettingsMessage)
        ensures
            final(self).settings_of() == settings_after(old(self).settings_of(), message),
            message matches SettingsMessage::PositionSelected(p) ==> final(self).settings_of() == (
            TabSettings { tab_bar_position: Some(p), ..old(self).settings_of() }),
            message matches SettingsMessage::ThemeSelected(s) ==> final(self).settings_of() == (
            TabSettings { tab_bar_theme: Some(s), ..old(self).settings_of() }),
    {
        match message {
            SettingsMessage::PositionSelected(position) => {
                self.settings.tab_bar_position = Some(position)
            },
            SettingsMessage::ThemeSelected(theme) => self.settings.tab_bar_theme = Some(theme),
        }
    }
}

impl TabSettings {
    /// The settings the application starts with (specification).
    pub open spec fn new_spec() -> TabSettings {
        TabSettings {
            tab_bar_position: Some(TabBarPosition::Top),
            tab_bar_theme: Some(TabBarStyles::Green),
        }
    }
}

} // verus!
