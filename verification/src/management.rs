//! The user management tab: listing, creating, editing and deleting users.

use vstd::prelude::*;

use crate::requests::{RequestResult, TempCreationUser};
use crate::role::{role_code, PlantBuddyRole};

verus! {

/// A user of the application: id, name, password and role.
#[derive(Debug, PartialEq)]
pub struct User {
    pub id: u32,
    pub name: String,
    pub password: String,
    pub role: PlantBuddyRole,
}

impl Clone for User {
    fn clone(&self) -> (r: Self)
        ensures
            r == *self,
    {
        User { id: self.id, name: self.name.clone(), password: self.password.clone(), role: self.role }
    }
}

/// The messages the management tab handles.
#[derive(Debug)]
pub enum ManagementMessage {
    /// The delete button of the user with this id was pressed.
    DeleteUserPressed(u32),
    /// The username input changed.
    UsernameChanged(String),
    /// The password input changed.
    PasswordChanged(String),
    /// Another role was chosen.
    RoleChanged(PlantBuddyRole),
    /// The create (or, while editing, the save) button was pressed.
    CreateNewUserPressed,
    /// The edit button of this user was pressed.
    EditUserButtonPressed(User),
    /// The users are to be fetched again.
    GetUsersPressed,
    /// The server answered a creation.
    UserCreated(RequestResult<()>),
    /// The server answered a deletion.
    UserDeleted(RequestResult<()>),
    /// The server answered with the users.
    UsersReceived(RequestResult<Vec<User>>),
    /// The server answered an edit.
    UserEdited(RequestResult<()>),
}

/// A copy of the answer to a request that gives nothing back.
fn clone_unit_result(r: &RequestResult<()>) -> (c: RequestResult<()>)
    ensures
        c == *r,
{
    match r {
        Ok(u) => {
            assert(*u == ());
            Ok(())
        },
        Err(e) => Err(e.clone()),
    }
}

/// Two messages are the same, a list of users being compared by its
/// elements.
pub open spec fn same_management_message(a: ManagementMessage, b: ManagementMessage) -> bool {
    match a {
        ManagementMessage::UsersReceived(Ok(v)) => b matches ManagementMessage::UsersReceived(Ok(w)) && w@ == v@,
        _ => a == b,
    }
}

impl Clone for ManagementMessage {
    fn clone(&self) -> (r: Self)
        ensures
            same_management_message(*self, r),
    {
        match self {
            ManagementMessage::DeleteUserPressed(id) => ManagementMessage::DeleteUserPressed(*id),
            ManagementMessage::UsernameChanged(s) => ManagementMessage::UsernameChanged(s.clone()),
            ManagementMessage::PasswordChanged(s) => ManagementMessage::PasswordChanged(s.clone()),
            ManagementMessage::RoleChanged(r) => ManagementMessage::RoleChanged(*r),
            ManagementMessage::CreateNewUserPressed => ManagementMessage::CreateNewUserPressed,
            ManagementMessage::EditUserButtonPressed(u) => ManagementMessage::EditUserButtonPressed(u.clone()),
            ManagementMessage::GetUsersPressed => ManagementMessage::GetUsersPressed,
            ManagementMessage::UserCreated(r) => ManagementMessage::UserCreated(clone_unit_result(r)),
            ManagementMessage::UserDeleted(r) => ManagementMessage::UserDeleted(clone_unit_result(r)),
            ManagementMessage::UsersReceived(r) => ManagementMessage::UsersReceived(
                match r {
                    Ok(users) => {
                        let copy = users.clone();
                        assert(copy@ =~= users@);
                        Ok(copy)
                    },
                    Err(e) => Err(e.clone()),
                },
            ),
            ManagementMessage::UserEdited(r) => ManagementMessage::UserEdited(clone_unit_result(r)),
        }
    }
}

/// The state of the management tab: the inputs, the users shown, the error
/// and notice texts, the user being edited, and the logged-in user whose
/// credentials authorize the requests.
#[derive(Debug)]
pub struct ManagementTab {
    pub username_input: String,
    pub password_input: String,
    pub role_input: PlantBuddyRole,
    pub users: Vec<User>,
    pub error_message: String,
    pub notify_message: String,
    pub editing_user: Option<User>,
    pub logged_in_user: TempCreationUser,
}

/// The management tab with its texts as character sequences.
pub struct ManagementModel {
    pub username: Seq<char>,
    pub password: Seq<char>,
    pub role: PlantBuddyRole,
    pub users: Seq<User>,
    pub error: Seq<char>,
    pub notice: Seq<char>,
    pub editing: Option<User>,
    pub logged_in: TempCreationUser,
}

impl View for ManagementTab {
    type V = ManagementModel;

    open spec fn view(&self) -> ManagementModel {
        ManagementModel {
            username: self.username_input@,
            password: self.password_input@,
            role: self.role_input,
            users: self.users@,
            error: self.error_message@,
            notice: self.notify_message@,
            editing: self.editing_user,
            logged_in: self.logged_in_user,
        }
    }
}

/// What the management tab asks the application to do.
#[derive(Debug, PartialEq)]
pub enum ManagementCommand {
    /// Nothing.
    Nothing,
    /// Create `user`, authorized by `username` and `password`.
    CreateUser { username: String, password: String, user: TempCreationUser },
    /// Give the user `id` the data of `user`, authorized by `username` and
    /// `password`.
    UpdateUser { username: String, password: String, id: u32, user: TempCreationUser },
    /// Delete the user `id`, authorized by `username` and `password`.
    DeleteUser { username: String, password: String, id: u32 },
    /// Fetch all users (where the application has a client).
    FetchUsers,
}

/// The error shown where a username or password is missing.
pub open spec fn empty_input_error() -> Seq<char> {
    "Nutzername oder Passwort ist leer"@
}

/// The user that the inputs describe.
pub open spec fn user_from_inputs(t: ManagementModel) -> (Seq<char>, Seq<char>, u64) {
    (t.username, t.password, role_code(t.role))
}

/// The next state and command of the management tab for a message.
pub open spec fn management_step(t: ManagementModel, m: ManagementMessage) -> (ManagementModel, Option<ManagementCommand>) {
    let cleared = ManagementModel { error: Seq::empty(), notice: Seq::empty(), ..t };
    match m {
        ManagementMessage::UsernameChanged(u) => (ManagementModel { username: u@, ..cleared }, Some(ManagementCommand::Nothing)),
        ManagementMessage::PasswordChanged(p) => (ManagementModel { password: p@, ..cleared }, Some(ManagementCommand::Nothing)),
        ManagementMessage::RoleChanged(r) => (ManagementModel { role: r, ..cleared }, Some(ManagementCommand::Nothing)),
        ManagementMessage::EditUserButtonPressed(u) => (
            ManagementModel {
                editing: Some(u),
                role: u.role,
                username: u.name@,
                password: u.password@,
                ..cleared
            },
            Some(ManagementCommand::Nothing),
        ),
        ManagementMessage::DeleteUserPressed(_) => (cleared, None),
        ManagementMessage::CreateNewUserPressed => if t.username.len() == 0 || t.password.len() == 0 {
            (ManagementModel { error: empty_input_error(), ..t }, Some(ManagementCommand::Nothing))
        } else {
            (t, None)
        },
        ManagementMessage::GetUsersPressed => (ManagementModel { error: Seq::empty(), ..t }, Some(ManagementCommand::FetchUsers)),
        ManagementMessage::UserCreated(r) => match r {
            Ok(_) => (
                ManagementModel {
                    username: Seq::empty(),
                    password: Seq::empty(),
                    notice: "Nutzer erstellt"@,
                    error: Seq::empty(),
                    ..t
                },
                Some(ManagementCommand::FetchUsers),
            ),
            Err(e) => (ManagementModel { error: e@, ..t }, Some(ManagementCommand::Nothing)),
        },
        ManagementMessage::UserDeleted(r) => match r {
            Ok(_) => (
                ManagementModel { notice: "Nutzer gelöscht"@, error: Seq::empty(), ..t },
                Some(ManagementCommand::FetchUsers),
            ),
            Err(e) => (ManagementModel { error: e@, ..t }, Some(ManagementCommand::Nothing)),
        },
        ManagementMessage::UsersReceived(r) => match r {
            Ok(users) => (ManagementModel { users: users@, ..t }, Some(ManagementCommand::Nothing)),
            Err(e) => (ManagementModel { error: e@, ..t }, Some(ManagementCommand::Nothing)),
        },
        ManagementMessage::UserEdited(r) => match r {
            Ok(_) => (
                ManagementModel {
                    notice: "Nutzer bearbeitet"@,
                    username: Seq::empty(),
                    password: Seq::empty(),
                    editing: None,
                    error: Seq::empty(),
                    ..t
                },
                Some(ManagementCommand::FetchUsers),
            ),
            Err(e) => (ManagementModel { error: e@, ..t }, Some(ManagementCommand::Nothing)),
        },
    }
}

/// The request command for the inputs: create a user, or, while a user is
/// being edited, update that user; authorized by `username` and `password`.
pub open spec fn save_command(t: ManagementModel, username: String, password: String, cmd: ManagementCommand) -> bool {
    match t.editing {
        None => cmd matches ManagementCommand::CreateUser { username: u, password: p, user }
            && u == username && p == password && user.name@ == t.username
            && user.password@ == t.password && user.role == role_code(t.role),
        Some(e) => cmd matches ManagementCommand::UpdateUser { username: u, password: p, id, user }
            && u == username && p == password && id == e.id && user.name@ == t.username
            && user.password@ == t.password && user.role == role_code(t.role),
    }
}

fn user_to_save(tab: &ManagementTab) -> (user: TempCreationUser)
    ensures
        user.name@ == tab.username_input@,
        user.password@ == tab.password_input@,
        user.role == role_code(tab.role_input),
{
    TempCreationUser {
        name: tab.username_input.clone(),
        password: tab.password_input.clone(),
        role: tab.role_input.into(),
    }
}

/// The command that creates the user of the inputs, authorized by
/// `username` and `password`.
pub fn create_user_pressed(tab: &ManagementTab, username: String, password: String) -> (cmd: ManagementCommand)
    ensures
        cmd matches ManagementCommand::CreateUser { username: u, password: p, user }
            && u == username && p == password && user.name@ == tab.username_input@
            && user.password@ == tab.password_input@ && user.role == role_code(tab.role_input),
{
    ManagementCommand::CreateUser { username, password, user: user_to_save(tab) }
}

/// The command that deletes the user `id`, authorized by `username` and
/// `password`.
pub fn delete_user_pressed(id: u32, username: String, password: String) -> (cmd: ManagementCommand)
    ensures
        cmd == (ManagementCommand::DeleteUser { username, password, id }),
{
    ManagementCommand::DeleteUser { username, password, id }
}

/// The command that fetches all users.
pub fn get_all_users_pressed() -> (cmd: ManagementCommand)
    ensures
        cmd == ManagementCommand::FetchUsers,
{
    ManagementCommand::FetchUsers
}

/// The command that gives the user being edited the data of the inputs,
/// authorized by `username` and `password`.
pub fn edit_user_pressed(tab: &ManagementTab, username: String, password: String) -> (cmd: ManagementCommand)
    requires
        tab.editing_user is Some,
    ensures
        cmd matches ManagementCommand::UpdateUser { username: u, password: p, id, user }
            && u == username && p == password && id == tab.editing_user->0.id
            && user.name@ == tab.username_input@ && user.password@ == tab.password_input@
            && user.role == role_code(tab.role_input),
{
    let id = match &tab.editing_user {
        Some(u) => u.id,
        None => 0,
    };
    ManagementCommand::UpdateUser { username, password, id, user: user_to_save(tab) }
}

/// What a message does to the management tab `o` (giving `n`) and which
/// command it gives.
pub open spec fn management_updated(o: ManagementTab, message: ManagementMessage, n: ManagementTab, cmd: ManagementCommand) -> bool {
    &&& n@ == management_step(o@, message).0
    &&& management_step(o@, message).1 matches Some(c) ==> cmd == c
    &&& message matches ManagementMessage::DeleteUserPressed(id) ==> cmd == (
    ManagementCommand::DeleteUser {
        username: o.logged_in_user.name,
        password: o.logged_in_user.password,
        id,
    })
    &&& (message is CreateNewUserPressed && o@.username.len() > 0
        && o@.password.len() > 0) ==> save_command(
        o@,
        o.logged_in_user.name,
        o.logged_in_user.password,
        cmd,
    )
}

impl ManagementTab {
    /// A management tab with empty inputs, the role "user", no users, no
    /// texts, nobody being edited and nobody logged in.
    pub fn new() -> (t: ManagementTab)
        ensures
            t@.username == Seq::<char>::empty(),
            t@.password == Seq::<char>::empty(),
            t@.role == PlantBuddyRole::User,
            t@.users.len() == 0,
            t@.error == Seq::<char>::empty(),
            t@.notice == Seq::<char>::empty(),
            t@.editing is None,
            t@.logged_in.name@ == Seq::<char>::empty(),
            t@.logged_in.password@ == Seq::<char>::empty(),
            t@.logged_in.role == 0,
    {
        ManagementTab {
            username_input: String::new(),
            password_input: String::new(),
            role_input: PlantBuddyRole::User,
            users: Vec::new(),
            error_message: String::new(),
            notify_message: String::new(),
            editing_user: None,
            logged_in_user: TempCreationUser::default(),
        }
    }

    /// The title of the tab.
    pub fn title(&self) -> (s: String)
        ensures
            s@ == "Verwaltung"@,
    {
        String::from_str("Verwaltung")
    }

    /// Updates the tab for a message and says what the application is to do
    /// (see `management_step`): a delete press asks to delete that user,
    /// and a create press with both inputs filled asks to create the user
    /// of the inputs, or to update the user being edited, authorized by the
    /// logged-in user's credentials.
    pub fn update(&mut self, message: ManagementMessage) -> (cmd: ManagementCommand)
        ensures
            management_updated(*old(self), message, *final(self), cmd),
    {
        let username = self.logged_in_user.name.clone();
        let password = self.logged_in_user.password.clone();
        match message {
            ManagementMessage::UsernameChanged(value) => {
                self.username_input = value;
                self.error_message = String::new();
                self.notify_message = String::new();
            },
            ManagementMessage::PasswordChanged(value) => {
                self.password_input = value;
                self.error_message = String::new();
                self.notify_message = String::new();
            },
            ManagementMessage::CreateNewUserPressed => {
                if self.username_input.as_str().is_empty() || self.password_input.as_str().is_empty() {
                    self.error_message = String::from_str("Nutzername oder Passwort ist leer");
                    return ManagementCommand::Nothing;
                }
                return if self.editing_user.is_none() {
                    create_user_pressed(self, username, password)
                } else {
                    edit_user_pressed(self, username, password)
                };
            },
            ManagementMessage::DeleteUserPressed(id) => {
                self.error_message = String::new();
                self.notify_message = String::new();
                return delete_user_pressed(id, username, password);
            },
            ManagementMessage::RoleChanged(role) => {
                self.error_message = String::new();
                self.notify_message = String::new();
                self.role_input = role;
            },
            ManagementMessage::EditUserButtonPressed(user) => {
                self.error_message = String::new();
                self.notify_message = String::new();
                self.role_input = user.role;
                self.username_input = user.name.clone();
                self.password_input = user.password.clone();
                self.editing_user = Some(user);
            },
            ManagementMessage::GetUsersPressed => {
                self.error_message = String::new();
                return get_all_users_pressed();
            },
            ManagementMessage::UserCreated(result) => match result {
                Ok(_) => {
                    self.username_input = String::new();
                    self.password_input = String::new();
                    self.notify_message = String::from_str("Nutzer erstellt");
                    self.error_message = String::new();
                    return get_all_users_pressed();
                },
                Err(e) => {
                    self.error_message = e;
                },
            },
            ManagementMessage::UserDeleted(result) => match result {
                Ok(_) => {
                    self.notify_message = String::from_str("Nutzer gelöscht");
                    self.error_message = String::new();
                    return get_all_users_pressed();
                },
                Err(e) => {
                    self.error_message = e;
                },
            },
            ManagementMessage::UsersReceived(result) => match result {
                Ok(users) => {
                    self.users = users;
                },
                Err(e) => {
                    self.error_message = e;
                },
            },
            ManagementMessage::UserEdited(result) => match result {
                Ok(_) => {
                    self.notify_message = String::from_str("Nutzer bearbeitet");
                    self.username_input = String::new();
                    self.password_input = String::new();
                    self.editing_user = None;
                    self.error_message = String::new();
                    return get_all_users_pressed();
                },
                Err(e) => {
                    self.error_message = e;
                },
            },
        }
        ManagementCommand::Nothing
    }
}

/// A management tab as `ManagementTab::new` makes it.
pub open spec fn management_as_new(t: ManagementTab) -> bool {
    &&& t@.username == Seq::<char>::empty()
    &&& t@.password == Seq::<char>::empty()
    &&& t@.role == PlantBuddyRole::User
    &&& t@.users.len() == 0
    &&& t@.error == Seq::<char>::empty()
    &&& t@.notice == Seq::<char>::empty()
    &&& t@.editing is None
    &&& t@.logged_in.name@ == Seq::<char>::empty()
    &&& t@.logged_in.password@ == Seq::<char>::empty()
    &&& t@.logged_in.role == 0
}

} // verus!
