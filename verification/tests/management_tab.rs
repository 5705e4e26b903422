use plantbuddy::management::{
    create_user_pressed, delete_user_pressed, edit_user_pressed, get_all_users_pressed,
    ManagementCommand, ManagementMessage, ManagementTab, User,
};
use plantbuddy::requests::TempCreationUser;
use plantbuddy::role::PlantBuddyRole;

#[test]
fn test_create_user_pressed() {
    let username = "test_username".to_string();
    let password = "test_password".to_string();
    let tab = ManagementTab::new();
    let cmd = create_user_pressed(&tab, username, password);
    assert_eq!(
        cmd,
        ManagementCommand::CreateUser {
            username: "test_username".to_string(),
            password: "test_password".to_string(),
            user: TempCreationUser { name: String::new(), password: String::new(), role: 1 },
        }
    );
}

#[test]
fn test_delete_user_pressed() {
    let username = "test_username".to_string();
    let password = "test_password".to_string();
    let id = 1;
    let cmd = delete_user_pressed(id, username, password);
    assert_eq!(
        cmd,
        ManagementCommand::DeleteUser {
            username: "test_username".to_string(),
            password: "test_password".to_string(),
            id: 1,
        }
    );
}

#[test]
fn test_edit_user_pressed() {
    let username = "test_username".to_string();
    let password = "test_password".to_string();
    let mut tab = ManagementTab::new();
    tab.editing_user = Some(User {
        id: 5,
        name: "test_name".to_string(),
        password: "test_password".to_string(),
        role: PlantBuddyRole::User,
    });
    let cmd = edit_user_pressed(&tab, username, password);
    match cmd {
        ManagementCommand::UpdateUser { id, .. } => assert_eq!(id, 5),
        _ => panic!("expected an update"),
    }
}

fn logged_in_tab() -> ManagementTab {
    let mut tab = ManagementTab::new();
    tab.logged_in_user = TempCreationUser { name: "admin".to_string(), password: "pw".to_string(), role: 0 };
    tab
}

#[test]
fn create_with_empty_inputs_shows_error() {
    let mut tab = logged_in_tab();
    let cmd = tab.update(ManagementMessage::CreateNewUserPressed);
    assert_eq!(cmd, ManagementCommand::Nothing);
    assert_eq!(tab.error_message, "Nutzername oder Passwort ist leer");
}

#[test]
fn create_and_edit_flow() {
    let mut tab = logged_in_tab();
    tab.update(ManagementMessage::UsernameChanged("bob".to_string()));
    tab.update(ManagementMessage::PasswordChanged("pw2".to_string()));
    tab.update(ManagementMessage::RoleChanged(PlantBuddyRole::Admin));
    let cmd = tab.update(ManagementMessage::CreateNewUserPressed);
    assert_eq!(
        cmd,
        ManagementCommand::CreateUser {
            username: "admin".to_string(),
            password: "pw".to_string(),
            user: TempCreationUser { name: "bob".to_string(), password: "pw2".to_string(), role: 0 },
        }
    );
    let cmd = tab.update(ManagementMessage::UserCreated(Ok(())));
    assert_eq!(cmd, ManagementCommand::FetchUsers);
    assert_eq!(tab.notify_message, "Nutzer erstellt");
    assert_eq!(tab.username_input, "");
    let user = User { id: 9, name: "bob".to_string(), password: "x".to_string(), role: PlantBuddyRole::User };
    tab.update(ManagementMessage::EditUserButtonPressed(user.clone()));
    assert_eq!(tab.username_input, "bob");
    assert_eq!(tab.role_input, PlantBuddyRole::User);
    let cmd = tab.update(ManagementMessage::CreateNewUserPressed);
    assert_eq!(
        cmd,
        ManagementCommand::UpdateUser {
            username: "admin".to_string(),
            password: "pw".to_string(),
            id: 9,
            user: TempCreationUser { name: "bob".to_string(), password: "x".to_string(), role: 1 },
        }
    );
    let cmd = tab.update(ManagementMessage::UserEdited(Ok(())));
    assert_eq!(cmd, ManagementCommand::FetchUsers);
    assert!(tab.editing_user.is_none());
    assert_eq!(tab.notify_message, "Nutzer bearbeitet");
}

#[test]
fn errors_and_deletions() {
    let mut tab = logged_in_tab();
    tab.update(ManagementMessage::UserDeleted(Err("boom".to_string())));
    assert_eq!(tab.error_message, "boom");
    let cmd = tab.update(ManagementMessage::DeleteUserPressed(3));
    assert_eq!(
        cmd,
        ManagementCommand::DeleteUser { username: "admin".to_string(), password: "pw".to_string(), id: 3 }
    );
    assert_eq!(tab.error_message, "");
    let cmd = tab.update(ManagementMessage::UserDeleted(Ok(())));
    assert_eq!(cmd, ManagementCommand::FetchUsers);
    assert_eq!(tab.notify_message, "Nutzer gelöscht");
    let users = vec![User { id: 1, name: "a".to_string(), password: String::new(), role: PlantBuddyRole::Admin }];
    tab.update(ManagementMessage::UsersReceived(Ok(users.clone())));
    assert_eq!(tab.users, users);
    assert_eq!(get_all_users_pressed(), ManagementCommand::FetchUsers);
    assert_eq!(tab.title(), "Verwaltung");
}
