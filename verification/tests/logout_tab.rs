use plantbuddy::logout::{LogoutMessage, LogoutTab};

#[test]
fn test_logout_tab_title() {
    let tab = LogoutTab::new();
    assert_eq!(tab.title(), "Abmelden");
}

#[test]
fn test_logout_tab_update() {
    let mut tab = LogoutTab::new();
    tab.update(LogoutMessage::OpenModal);
    assert_eq!(tab.show_modal, true);
    assert_eq!(tab.last_message, Some(LogoutMessage::OpenModal));

    tab.update(LogoutMessage::CloseModal);
    assert_eq!(tab.show_modal, false);
    assert_eq!(tab.last_message, Some(LogoutMessage::CloseModal));

    tab.update(LogoutMessage::CancelButtonPressed);
    assert_eq!(tab.show_modal, false);
    assert_eq!(tab.last_message, Some(LogoutMessage::CancelButtonPressed));

    tab.update(LogoutMessage::OkButtonPressed);
    assert_eq!(tab.show_modal, false);
    assert_eq!(tab.last_message, Some(LogoutMessage::OkButtonPressed));
}

#[test]
fn new_logout_tab_has_dialog_closed() {
    let tab = LogoutTab::new();
    assert_eq!(tab.show_modal, false);
    assert_eq!(tab.last_message, None);
    let default_tab = LogoutTab::default();
    assert_eq!(default_tab.show_modal, false);
    assert_eq!(default_tab.last_message, None);
}
