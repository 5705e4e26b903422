use plantbuddy::application::{AppCommand, LoginState, Message, Plantbuddy, TabKind};
use plantbuddy::buttons::Button;
use plantbuddy::icons::Icon;
use plantbuddy::login::LoginMessage;
use plantbuddy::logout::LogoutMessage;
use plantbuddy::management::ManagementCommand;
use plantbuddy::requests::{RequestResult, TempCreationUser};
use plantbuddy::role::PlantBuddyRole;
use plantbuddy::settings::{SettingsMessage, TabBarPosition, TabBarStyles};

#[test]
fn test_new_plantbuddy() {
    let plantbuddy = Plantbuddy::new();
    assert_eq!(plantbuddy.is_logged_in, LoginState::NotLoggedIn);
    assert_eq!(plantbuddy.active_tab, 0);
    assert_eq!(plantbuddy.active_tab, 0);
}

#[test]
fn test_plantbuddy_title() {
    let plantbuddy = Plantbuddy::new();
    assert_eq!(plantbuddy.title(), "Plantbuddy");
}

#[test]
fn test_login_state() {
    let mut plantbuddy = Plantbuddy::new();
    let user = TempCreationUser {
        name: "test".to_string(),
        password: "test".to_string(),
        role: PlantBuddyRole::User.into(),
    };

    assert_eq!(plantbuddy.is_logged_in, LoginState::NotLoggedIn);
    let _ = plantbuddy.update(Message::Login(LoginMessage::Login(RequestResult::Ok(user.clone()))));
    assert_eq!(plantbuddy.is_logged_in, LoginState::LoggedIn);
}

#[test]
fn test_active_tab() {
    let mut plantbuddy = Plantbuddy::new();
    assert_eq!(plantbuddy.active_tab, 0);
    plantbuddy.update(Message::TabSelected(2));
    assert_eq!(plantbuddy.active_tab, 2);
}

#[test]
fn test_icon_conversion() {
    assert_eq!(char::from(Icon::User), '\u{ea77}');
    assert_eq!(char::from(Icon::Homescreen), '\u{e88a}');
}

#[test]
fn login_then_logout() {
    let mut app = Plantbuddy::new();
    assert_eq!(app.visible_tabs(), vec![TabKind::Login]);
    let admin = TempCreationUser { name: "root".to_string(), password: "pw".to_string(), role: 0 };
    let cmds = app.update(Message::Login(LoginMessage::Login(Ok(admin.clone()))));
    assert_eq!(cmds.len(), 3);
    assert!(matches!(cmds[0], AppCommand::Home(_)));
    assert!(matches!(cmds[1], AppCommand::Detail(_)));
    assert!(matches!(cmds[2], AppCommand::Management(ManagementCommand::FetchUsers)));
    assert_eq!(app.user, admin);
    assert_eq!(app.management_tab.logged_in_user, admin);
    assert_eq!(
        app.visible_tabs(),
        vec![TabKind::Home, TabKind::Detail, TabKind::Settings, TabKind::Management, TabKind::Logout]
    );
    app.update(Message::Logout(LogoutMessage::OpenModal));
    assert_eq!(app.is_logged_in, LoginState::LoggedIn);
    let cmds = app.update(Message::Logout(LogoutMessage::OkButtonPressed));
    assert!(cmds.is_empty());
    assert_eq!(app.is_logged_in, LoginState::NotLoggedIn);
    assert_eq!(app.user, TempCreationUser::default());
}

#[test]
fn plain_users_do_not_see_management() {
    let mut app = Plantbuddy::new();
    let user = TempCreationUser { name: "u".to_string(), password: "p".to_string(), role: 1 };
    app.update(Message::Login(LoginMessage::Login(Ok(user))));
    assert_eq!(app.visible_tabs(), vec![TabKind::Home, TabKind::Detail, TabKind::Settings, TabKind::Logout]);
}

#[test]
fn failed_login_stays_on_login_page() {
    let mut app = Plantbuddy::new();
    let cmds = app.update(Message::Login(LoginMessage::Login(Err("no".to_string()))));
    assert_eq!(cmds.len(), 1);
    assert_eq!(app.is_logged_in, LoginState::NotLoggedIn);
    assert!(app.login_page.login_failed);
    assert_eq!(Button::default(), Button::Primary);
}

#[test]
fn settings_and_logout_dialog_reach_their_tabs() {
    let mut app = Plantbuddy::new();
    assert!(app.update(Message::Settings(SettingsMessage::PositionSelected(TabBarPosition::Bottom))).is_empty());
    assert_eq!(app.settings_tab.tab_bar_position(), TabBarPosition::Bottom);
    app.update(Message::Settings(SettingsMessage::ThemeSelected(TabBarStyles::Red)));
    assert_eq!(app.settings_tab.tab_bar_style(), TabBarStyles::Red);
    assert_eq!(app.settings_tab.tab_bar_position(), TabBarPosition::Bottom);
    app.update(Message::Logout(LogoutMessage::OpenModal));
    assert!(app.logout_tab.show_modal);
    app.update(Message::Logout(LogoutMessage::CancelButtonPressed));
    assert!(!app.logout_tab.show_modal);
    assert_eq!(app.active_tab, 0);
}
