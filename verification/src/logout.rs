//! The logout tab: a confirmation dialog before logging out.

use vstd::prelude::*;

verus! {

/// The actions of the logout dialog.
#[derive(Debug, Clone, Copy, PartialEq, Eq, Structural)]
pub enum LogoutMessage {
    /// Open the dialog.
    OpenModal,
    /// Close the dialog.
    CloseModal,
    /// The cancel button of the dialog was pressed.
    CancelButtonPressed,
    /// The confirmation button of the dialog was pressed.
    OkButtonPressed,
}

/// The logout tab: whether the dialog is shown, and the last message
/// received.
#[derive(Debug)]
pub struct LogoutTab {
    pub show_modal: bool,
    pub last_message: Option<LogoutMessage>,
}

impl Default for LogoutTab {
    fn default() -> (t: Self)
        ensures
            !t.show_modal,
            t.last_message is None,
    {
        LogoutTab { show_modal: false, last_message: None }
    }
}

impl LogoutTab {
    /// Creates a new logout tab: dialog closed, no message received yet.
    pub fn new() -> (t: Self)
        ensures
            !t.show_modal,
            t.last_message is None,
    {
        LogoutTab { show_modal: false, last_message: None }
    }

    /// The title of the tab.
    pub fn title(&self) -> (s: String)
        ensures
            s@ == "Abmelden"@,
    {
        String::from_str("Abmelden")
    }

    /// Processes a message: the dialog is open exactly after an open
    /// message, and the message becomes the last one received.
    pub fn update(&mut self, message: LogoutMessage)
        ensures
            final(self).show_modal == (message == LogoutMessage::OpenModal),
            final(self).last_message == Some(message),
    {
        match message {
            LogoutMessage::OpenModal => self.show_modal = true,
            LogoutMessage::CloseModal => self.show_modal = false,
            LogoutMessage::CancelButtonPressed => self.show_modal = false,
            LogoutMessage::OkButtonPressed => {
                self.show_modal = false;
            },
        }
        self.last_message = Some(message)
    }
}

} // verus!
