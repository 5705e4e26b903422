//! The login tab: the credential inputs and what a login press does.

use vstd::prelude::*;

use crate::requests::{RequestResult, TempCreationUser};

verus! {

/// The messages the login tab handles.
#[derive(Debug)]
pub enum LoginMessage {
    /// The server answered a login request.
    Login(RequestResult<TempCreationUser>),
    /// The username input changed.
    UsernameChanged(String),
    /// The password input changed.
    PasswordChanged(String),
    /// The clear button was pressed.
    ClearPressed,
    /// The login button was pressed (or the password input submitted).
    LoginPressed,
}

impl Clone for LoginMessage {
    fn clone(&self) -> (r: Self)
        ensures
            r == *self,
    {
        match self {
            LoginMessage::Login(result) => LoginMessage::Login(
                match result {
                    Ok(user) => Ok(user.clone()),
                    Err(e) => Err(e.clone()),
                },
            ),
            LoginMessage::UsernameChanged(s) => LoginMessage::UsernameChanged(s.clone()),
            LoginMessage::PasswordChanged(s) => LoginMessage::PasswordChanged(s.clone()),
            LoginMessage::ClearPressed => LoginMessage::ClearPressed,
            LoginMessage::LoginPressed => LoginMessage::LoginPressed,
        }
    }
}

/// The state of the login tab: the inputs, whether the last attempt
/// failed, and the error shown for it.
#[derive(Debug)]
pub struct LoginTab {
    pub username: String,
    pub password: String,
    pub login_failed: bool,
    pub last_error_massage: String,
}

/// The login tab with its texts as character sequences.
pub struct LoginModel {
    pub username: Seq<char>,
    pub password: Seq<char>,
    pub failed: bool,
    pub error: Seq<char>,
}

impl View for LoginTab {
    type V = LoginModel;

    open spec fn view(&self) -> LoginModel {
        LoginModel {
            username: self.username@,
            password: self.password@,
            failed: self.login_failed,
            error: self.last_error_massage@,
        }
    }
}

/// What the login tab asks the application to do.
#[derive(Debug, PartialEq)]
pub enum LoginCommand {
    /// Nothing.
    Nothing,
    /// Send a login request with these credentials.
    CheckLogin { username: String, password: String },
}

/// The login tab as it starts: empty inputs, no failure, no error.
pub open spec fn initial_login() -> LoginModel {
    LoginModel { username: Seq::empty(), password: Seq::empty(), failed: false, error: Seq::empty() }
}

/// The error shown where a login is tried with an empty input.
pub open spec fn empty_credentials_error() -> Seq<char> {
    "Nutzername oder Passwort ist leer"@
}

/// The error shown where the server refused a login.
pub open spec fn server_error() -> Seq<char> {
    "Server-Fehler"@
}

/// The next state of the login tab for a message.
pub open spec fn login_step(t: LoginModel, m: LoginMessage) -> LoginModel {
    match m {
        LoginMessage::UsernameChanged(v) => LoginModel { username: v@, failed: false, ..t },
        LoginMessage::PasswordChanged(v) => LoginModel { password: v@, failed: false, ..t },
        LoginMessage::ClearPressed => initial_login(),
        LoginMessage::LoginPressed => if t.username.len() == 0 || t.password.len() == 0 {
            LoginModel { failed: true, error: empty_credentials_error(), ..t }
        } else {
            t
        },
        LoginMessage::Login(r) => match r {
            Ok(_) => LoginModel { failed: false, ..t },
            Err(_) => LoginModel { failed: true, error: server_error(), ..t },
        },
    }
}

/// What a message does to the login tab `o` (giving `n`) and which command
/// it gives: a login press with both inputs filled asks for a login
/// request with exactly the inputs; every other message asks for nothing.
pub open spec fn login_updated(o: LoginTab, message: LoginMessage, n: LoginTab, cmd: LoginCommand) -> bool {
    &&& n@ == login_step(o@, message)
    &&& (message is LoginPressed && o@.username.len() > 0 && o@.password.len() > 0) ==> cmd == (
    LoginCommand::CheckLogin { username: o.username, password: o.password })
    &&& !(message is LoginPressed && o@.username.len() > 0 && o@.password.len() > 0) ==> cmd
        == LoginCommand::Nothing
}

impl LoginTab {
    /// Creates a new login tab.
    pub fn new() -> (t: LoginTab)
        ensures
            t@ == initial_login(),
    {
        LoginTab {
            username: String::new(),
            password: String::new(),
            login_failed: false,
            last_error_massage: String::new(),
        }
    }

    /// The title of the tab.
    pub fn title(&self) -> (s: String)
        ensures
            s@ == "Login"@,
    {
        String::from_str("Login")
    }

    /// Fills the inputs that are still empty with the given credentials (in
    /// development builds the application takes them from the environment).
    pub fn fill_missing_credentials(&mut self, username: String, password: String)
        ensures
            final(self)@ == (LoginModel {
                username: if old(self)@.username.len() == 0 { username@ } else { old(self)@.username },
                password: if old(self)@.password.len() == 0 { password@ } else { old(self)@.password },
                ..old(self)@
            }),
    {
        if self.username.as_str().is_empty() {
            self.username = username;
        }
        if self.password.as_str().is_empty() {
            self.password = password;
        }
    }

    /// Updates the tab for a message (see `login_step`). A login press with
    /// both inputs filled asks for a login request with exactly the inputs;
    /// every other message asks for nothing.
    pub fn update(&mut self, message: LoginMessage) -> (cmd: LoginCommand)
        ensures
            login_updated(*old(self), message, *final(self), cmd),
    {
        match message {
            LoginMessage::UsernameChanged(value) => {
                self.username = value;
                self.login_failed = false;
            },
            LoginMessage::PasswordChanged(value) => {
                self.password = value;
                self.login_failed = false;
            },
            LoginMessage::ClearPressed => {
                self.username = String::new();
                self.password = String::new();
                self.last_error_massage = String::new();
                self.login_failed = false;
            },
            LoginMessage::LoginPressed => {
                if self.username.as_str().is_empty() || self.password.as_str().is_empty() {
                    self.login_failed = true;
                    self.last_error_massage = String::from_str("Nutzername oder Passwort ist leer");
                    return LoginCommand::Nothing;
                }
                return check_login(&self.username, &self.password);
            },
            LoginMessage::Login(result) => match result {
                Ok(_) => {
                    self.login_failed = false;
                },
                Err(_) => {
                    self.login_failed = true;
                    self.last_error_massage = String::from_str("Server-Fehler");
                },
            },
        }
        LoginCommand::Nothing
    }
}

/// The command that sends a login request with these credentials.
pub fn check_login(username: &String, password: &String) -> (cmd: LoginCommand)
    ensures
        cmd == (LoginCommand::CheckLogin { username: *username, password: *password }),
{
    LoginCommand::CheckLogin { username: username.clone(), password: password.clone() }
}

/// A clear press always brings the tab back to its initial state.
pub proof fn lemma_clear_resets(t: LoginModel)
    ensures
        login_step(t, LoginMessage::ClearPressed) == initial_login(),
{
}


/// Typing the password leaves the username as it was, and typing the
/// username leaves the password; neither asks for anything.
pub proof fn lemma_inputs_are_independent(o: LoginTab, message: LoginMessage, n: LoginTab, cmd: LoginCommand)
    requires
        message is UsernameChanged || message is PasswordChanged,
        login_updated(o, message, n, cmd),
    ensures
        message matches LoginMessage::PasswordChanged(p) ==> n@.password == p@ && n@.username == o@.username,
        message matches LoginMessage::UsernameChanged(u) ==> n@.username == u@ && n@.password == o@.password,
        cmd == LoginCommand::Nothing,
{
}

/// Typing a username and then a password, both not empty, and pressing the
/// login button asks for a login with exactly what was typed.
pub proof fn lemma_typed_credentials_are_sent(
    t0: LoginTab,
    u: String,
    t1: LoginTab,
    c1: LoginCommand,
    p: String,
    t2: LoginTab,
    c2: LoginCommand,
    t3: LoginTab,
    c3: LoginCommand,
)
    requires
        u@.len() > 0,
        p@.len() > 0,
        login_updated(t0, LoginMessage::UsernameChanged(u), t1, c1),
        login_updated(t1, LoginMessage::PasswordChanged(p), t2, c2),
        login_updated(t2, LoginMessage::LoginPressed, t3, c3),
    ensures
        c3 matches LoginCommand::CheckLogin { username, password } && username@ == u@ && password@ == p@,
{
}

} // verus!
