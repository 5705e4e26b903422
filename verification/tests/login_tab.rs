use plantbuddy::login::{LoginCommand, LoginMessage, LoginTab};
use plantbuddy::requests::{RequestResult, TempCreationUser};
use plantbuddy::role::PlantBuddyRole;

#[test]
fn test_login_tab_new() {
    let login_tab = LoginTab::new();
    assert_eq!(login_tab.username, "");
    assert_eq!(login_tab.password, "");
    assert_eq!(login_tab.login_failed, false);
    assert_eq!(login_tab.last_error_massage, "");
}

#[test]
fn test_login_tab_update_username_changed() {
    let mut login_tab = LoginTab::new();
    let message = LoginMessage::UsernameChanged("test".to_string());
    login_tab.update(message);
    assert_eq!(login_tab.username, "test");
    assert_eq!(login_tab.login_failed, false);
}

#[test]
fn test_login_tab_update_password_changed() {
    let mut login_tab = LoginTab::new();
    let message = LoginMessage::PasswordChanged("test".to_string());
    login_tab.update(message);
    assert_eq!(login_tab.password, "test");
    assert_eq!(login_tab.login_failed, false);
}

#[test]
fn test_login_tab_update_clear_pressed() {
    let mut login_tab = LoginTab::new();
    login_tab.username = "test".to_string();
    login_tab.password = "test".to_string();
    login_tab.login_failed = true;
    login_tab.last_error_massage = "test".to_string();
    let message = LoginMessage::ClearPressed;
    login_tab.update(message);
    assert_eq!(login_tab.username, "");
    assert_eq!(login_tab.password, "");
    assert_eq!(login_tab.login_failed, false);
    assert_eq!(login_tab.last_error_massage, "");
}

#[test]
fn test_login_tab_update_login_pressed_empty_username() {
    let mut login_tab = LoginTab::new();
    login_tab.password = "test".to_string();
    let message = LoginMessage::LoginPressed;
    let command = login_tab.update(message);
    assert_eq!(login_tab.login_failed, true);
    assert_eq!(login_tab.last_error_massage, "Nutzername oder Passwort ist leer");
    assert_eq!(command, LoginCommand::Nothing);
}

#[test]
fn test_login_tab_update_login_pressed_empty_password() {
    let mut login_tab = LoginTab::new();
    login_tab.username = "test".to_string();
    let message = LoginMessage::LoginPressed;
    let command = login_tab.update(message);
    assert_eq!(login_tab.login_failed, true);
    assert_eq!(login_tab.last_error_massage, "Nutzername oder Passwort ist leer");
    assert_eq!(command, LoginCommand::Nothing);
}

#[test]
fn test_login_tab_update_login_pressed_failed() {
    let mut login_tab = LoginTab::new();
    login_tab.username = "test".to_string();
    login_tab.password = "test".to_string();
    let message = LoginMessage::Login(RequestResult::Err("test".to_string()));
    let command = login_tab.update(message);
    assert_eq!(login_tab.login_failed, true);
    assert_eq!(login_tab.last_error_massage, "Server-Fehler");
    assert_eq!(command, LoginCommand::Nothing);
}

#[test]
fn test_plant_buddy_role_into() {
    assert_eq!(Into::<u64>::into(PlantBuddyRole::Admin), 0);
    assert_eq!(Into::<u64>::into(PlantBuddyRole::User), 1);
    assert_eq!(Into::<u64>::into(PlantBuddyRole::NotLoggedIn), 2);
}

#[test]
fn test_plant_buddy_role_try_from() {
    assert_eq!(PlantBuddyRole::try_from(0), Ok(PlantBuddyRole::Admin));
    assert_eq!(PlantBuddyRole::try_from(1), Ok(PlantBuddyRole::User));
    assert_eq!(PlantBuddyRole::try_from(2), Ok(PlantBuddyRole::NotLoggedIn));
    assert_eq!(PlantBuddyRole::try_from(3), Err("Invalid role"));
}

#[test]
fn test_plant_buddy_role_fmt_display() {
    assert_eq!(PlantBuddyRole::Admin.to_display_string(), "Admin");
    assert_eq!(PlantBuddyRole::User.to_display_string(), "User");
    assert_eq!(PlantBuddyRole::NotLoggedIn.to_display_string(), "LoginFailed");
}

#[test]
fn login_pressed_with_both_inputs_asks_for_login() {
    let mut login_tab = LoginTab::new();
    login_tab.username = "anna".to_string();
    login_tab.password = "geheim".to_string();
    let command = login_tab.update(LoginMessage::LoginPressed);
    assert_eq!(
        command,
        LoginCommand::CheckLogin { username: "anna".to_string(), password: "geheim".to_string() }
    );
    assert_eq!(login_tab.login_failed, false);
    assert_eq!(login_tab.username, "anna");
}

#[test]
fn successful_login_clears_failure() {
    let mut login_tab = LoginTab::new();
    login_tab.login_failed = true;
    login_tab.last_error_massage = "Server-Fehler".to_string();
    let user = TempCreationUser { name: "a".to_string(), password: "b".to_string(), role: 1 };
    login_tab.update(LoginMessage::Login(Ok(user)));
    assert_eq!(login_tab.login_failed, false);
    assert_eq!(login_tab.last_error_massage, "Server-Fehler");
}

#[test]
fn fill_missing_credentials_keeps_typed_ones() {
    let mut login_tab = LoginTab::new();
    login_tab.username = "typed".to_string();
    login_tab.fill_missing_credentials("env-user".to_string(), "env-pass".to_string());
    assert_eq!(login_tab.username, "typed");
    assert_eq!(login_tab.password, "env-pass");
}

#[test]
fn role_code_round_trip() {
    for role in [PlantBuddyRole::Admin, PlantBuddyRole::User, PlantBuddyRole::NotLoggedIn] {
        assert_eq!(PlantBuddyRole::from_code(role.code()), Some(role));
    }
    assert_eq!(PlantBuddyRole::from_code(7), None);
    assert_eq!(PlantBuddyRole::default(), PlantBuddyRole::NotLoggedIn);
    assert_eq!(LoginTab::new().title(), "Login");
}
