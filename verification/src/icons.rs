//! The icons of the tab bar, as characters of the icon font.

use vstd::prelude::*;

verus! {

/// The icons used in the application.
#[derive(Debug, Clone, Copy, PartialEq, Eq, Structural)]
pub enum Icon {
    User,
    Homescreen,
    Detailpage,
    CogAlt,
    Logout,
    Management,
    X,
}

/// The character of an icon in the icon font.
pub open spec fn icon_char(icon: Icon) -> char {
    match icon {
        Icon::User => '\u{ea77}',
        Icon::CogAlt => '\u{e8b8}',
        Icon::Homescreen => '\u{e88a}',
        Icon::Detailpage => '\u{e85c}',
        Icon::Logout => '\u{e9ba}',
        Icon::Management => '\u{f02e}',
        Icon::X => '\u{e5cd}',
    }
}

impl From<Icon> for char {
    fn from(icon: Icon) -> (c: char) {
        match icon {
            Icon::User => '\u{ea77}',
            Icon::CogAlt => '\u{e8b8}',
            Icon::Homescreen => '\u{e88a}',
            Icon::Detailpage => '\u{e85c}',
            Icon::Logout => '\u{e9ba}',
            Icon::Management => '\u{f02e}',
            Icon::X => '\u{e5cd}',
        }
    }
}

impl vstd::std_specs::convert::FromSpecImpl<Icon> for char {
    open spec fn obeys_from_spec() -> bool {
        true
    }

    open spec fn from_spec(icon: Icon) -> char {
        icon_char(icon)
    }
}

/// Different icons have different characters.
pub proof fn lemma_icon_chars_distinct(a: Icon, b: Icon)
    ensures
        icon_char(a) == icon_char(b) ==> a == b,
{
}

} // verus!
