//! The styles of the application's buttons.

use vstd::prelude::*;

verus! {

/// The kinds of buttons.
#[derive(Debug, Clone, Copy, PartialEq, Eq, Structural)]
pub enum Button {
    Primary,
    Secondary,
}

impl Default for Button {
    fn default() -> (b: Self)
        ensures
            b == Button::Primary,
    {
        Button::Primary
    }
}

} // verus!
