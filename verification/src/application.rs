//! The application as a whole: which tabs it shows, and how a message is
//! passed to the tab it belongs to.

use vstd::prelude::*;

use crate::detail::{detail_as_new, detail_updated, detail_wf, DetailCommand, DetailMessage, DetailPage, borders_cover};
use crate::home::{home_as_new, home_updated, home_wf, HomeCommand, HomeMessage, HomePage};
use crate::login::{initial_login, login_updated, LoginCommand, LoginMessage, LoginTab};
use crate::logout::{LogoutMessage, LogoutTab};
use crate::management::{management_as_new, management_updated, same_management_message, ManagementCommand, ManagementMessage, ManagementTab};
use crate::requests::TempCreationUser;
use crate::sensors::Sensortypes;
use crate::settings::{settings_after, SettingsMessage, SettingsTab, TabSettings};

verus! {

/// Whether a user is logged in.
#[derive(Debug, Clone, Copy, PartialEq, Eq, Structural)]
pub enum LoginState {
    NotLoggedIn,
    LoggedIn,
}

/// The messages of the application: a tab was chosen, or a message for
/// one of the tabs.
#[derive(Debug)]
pub enum Message {
    TabSelected(usize),
    Login(LoginMessage),
    Detail(DetailMessage),
    Home(HomeMessage),
    Settings(SettingsMessage),
    Logout(LogoutMessage),
    Management(ManagementMessage),
}

impl Clone for Message {
    fn clone(&self) -> (r: Self)
        ensures
            match *self {
                Message::Management(m) => r matches Message::Management(n) && same_management_message(m, n),
                _ => r == *self,
            },
    {
        match self {
            Message::TabSelected(i) => Message::TabSelected(*i),
            Message::Login(m) => Message::Login(m.clone()),
            Message::Detail(m) => Message::Detail(m.clone()),
            Message::Home(m) => Message::Home(m.clone()),
            Message::Settings(m) => Message::Settings(*m),
            Message::Logout(m) => Message::Logout(*m),
            Message::Management(m) => Message::Management(m.clone()),
        }
    }
}

/// A command of one of the tabs, for the application to carry out.
#[derive(Debug)]
pub enum AppCommand {
    Login(LoginCommand),
    Home(HomeCommand),
    Detail(DetailCommand),
    Management(ManagementCommand),
}

/// The tabs the application can show.
#[derive(Debug, Clone, Copy, PartialEq, Eq, Structural)]
pub enum TabKind {
    Login,
    Home,
    Detail,
    Settings,
    Management,
    Logout,
}

/// The state of the application: whether someone is logged in, the chosen
/// tab, the tabs, and the logged-in user.
#[derive(Debug)]
pub struct Plantbuddy {
    pub is_logged_in: LoginState,
    pub active_tab: usize,
    pub home_page: HomePage,
    pub detail_page: DetailPage,
    pub login_page: LoginTab,
    pub settings_tab: SettingsTab,
    pub logout_tab: LogoutTab,
    pub management_tab: ManagementTab,
    pub user: TempCreationUser,
}

/// The application is well formed: its pages are.
pub open spec fn app_wf(a: Plantbuddy) -> bool {
    home_wf(a.home_page) && detail_wf(a.detail_page)
}

/// The tabs shown: after login the home page, the detail page and the
/// settings, the user management for admins only, and the logout; before
/// login only the login page.
pub open spec fn tabs_shown(logged_in: LoginState, role: u64) -> Seq<TabKind> {
    if logged_in == LoginState::LoggedIn {
        if role == 0 {
            seq![TabKind::Home, TabKind::Detail, TabKind::Settings, TabKind::Management, TabKind::Logout]
        } else {
            seq![TabKind::Home, TabKind::Detail, TabKind::Settings, TabKind::Logout]
        }
    } else {
        seq![TabKind::Login]
    }
}

/// A message for the application can be handled: a group dialog of the
/// detail page is only confirmed where every range of the group that
/// belongs to a sensor has an input.
pub open spec fn message_ok(a: Plantbuddy, m: Message) -> bool {
    m matches Message::Detail(DetailMessage::OkButtonPressed) ==> (a.detail_page@.modal_is_plant || borders_cover(a.detail_page@))
}

impl Plantbuddy {
    /// The application as it starts: nobody logged in, the first tab chosen,
    /// all tabs new, and no user.
    pub fn new() -> (a: Plantbuddy)
        ensures
            app_wf(a),
            a.is_logged_in == LoginState::NotLoggedIn,
            a.active_tab == 0,
            a.login_page@ == initial_login(),
            a.user.name@ == Seq::<char>::empty(),
            a.user.password@ == Seq::<char>::empty(),
            a.user.role == 0,
            home_as_new(a.home_page),
            detail_as_new(a.detail_page),
            a.settings_tab.settings_of() == TabSettings::new_spec(),
            !a.logout_tab.show_modal,
            a.logout_tab.last_message is None,
            management_as_new(a.management_tab),
    {
        Plantbuddy {
            is_logged_in: LoginState::NotLoggedIn,
            active_tab: 0,
            home_page: HomePage::new(),
            detail_page: DetailPage::new(),
            login_page: LoginTab::new(),
            settings_tab: SettingsTab::new(),
            logout_tab: LogoutTab::new(),
            management_tab: ManagementTab::new(),
            user: TempCreationUser::default(),
        }
    }

    /// The title of the application.
    pub fn title(&self) -> (s: String)
        ensures
            s@ == "Plantbuddy"@,
    {
        String::from_str("Plantbuddy")
    }

    /// The tabs to show (see `tabs_shown`); the logged-in user's role code
    /// must name a role.
    pub fn visible_tabs(&self) -> (v: Vec<TabKind>)
        requires
            self.is_logged_in == LoginState::LoggedIn ==> self.user.role <= 2,
        ensures
            v@ == tabs_shown(self.is_logged_in, self.user.role),
    {
        let mut v: Vec<TabKind> = Vec::new();
        match self.is_logged_in {
            LoginState::LoggedIn => {
                v.push(TabKind::Home);
                v.push(TabKind::Detail);
                v.push(TabKind::Settings);
                if self.user.role == 0 {
                    v.push(TabKind::Management);
                }
                v.push(TabKind::Logout);
            },
            LoginState::NotLoggedIn => {
                v.push(TabKind::Login);
            },
        }
        assert(v@ =~= tabs_shown(self.is_logged_in, self.user.role));
        v
    }

    /// Handles a message and gives the commands the application is to carry
    /// out, in order:
    /// - a chosen tab becomes the active one;
    /// - a successful login logs the user in, clears the login page, makes
    ///   the user the one whose credentials the management tab uses, and
    ///   switches the home page to soil moisture, loads the plant list and
    ///   fetches the users (their three commands);
    /// - a confirmed logout logs out and forgets the user;
    /// - every other message goes to its tab, which handles it as its own
    ///   `update` says, and gives that tab's command.
    pub fn update(&mut self, message: Message) -> (cmds: Vec<AppCommand>)
        requires
            app_wf(*old(self)),
            message_ok(*old(self), message),
        ensures
            app_wf(*final(self)),
            match message {
                Message::TabSelected(i) => {
                    &&& *final(self) == (Plantbuddy { active_tab: i, ..*old(self) })
                    &&& cmds@.len() == 0
                },
                Message::Login(LoginMessage::Login(Ok(u))) => {
                    &&& final(self).is_logged_in == LoginState::LoggedIn
                    &&& final(self).user == u
                    &&& final(self).management_tab.logged_in_user == u
                    &&& final(self).login_page@ == initial_login()
                    &&& final(self).active_tab == old(self).active_tab
                    &&& *final(self) == (Plantbuddy {
                        is_logged_in: final(self).is_logged_in,
                        user: final(self).user,
                        login_page: final(self).login_page,
                        home_page: final(self).home_page,
                        detail_page: final(self).detail_page,
                        management_tab: final(self).management_tab,
                        ..*old(self)
                    })
                    &&& cmds@.len() == 3
                    &&& cmds@[0] matches AppCommand::Home(c0) && home_updated(
                        old(self).home_page,
                        HomeMessage::SwitchGraph(Sensortypes::Feuchtigkeit),
                        final(self).home_page,
                        c0,
                    )
                    &&& cmds@[1] matches AppCommand::Detail(c1) && detail_updated(
                        old(self).detail_page,
                        DetailMessage::Load,
                        final(self).detail_page,
                        c1,
                    )
                    &&& cmds@[2] matches AppCommand::Management(c2) && c2 == ManagementCommand::FetchUsers
                },
                Message::Login(m) => {
                    &&& final(self).is_logged_in == old(self).is_logged_in
                    &&& final(self).user == old(self).user
                    &&& cmds@.len() == 1
                    &&& cmds@[0] matches AppCommand::Login(c) && login_updated(old(self).login_page, m, final(self).login_page, c)
                    &&& *final(self) == (Plantbuddy { login_page: final(self).login_page, ..*old(self) })
                },
                Message::Home(m) => {
                    &&& cmds@.len() == 1
                    &&& cmds@[0] matches AppCommand::Home(c) && home_updated(old(self).home_page, m, final(self).home_page, c)
                    &&& *final(self) == (Plantbuddy { home_page: final(self).home_page, ..*old(self) })
                },
                Message::Detail(m) => {
                    &&& cmds@.len() == 1
                    &&& cmds@[0] matches AppCommand::Detail(c) && detail_updated(old(self).detail_page, m, final(self).detail_page, c)
                    &&& *final(self) == (Plantbuddy { detail_page: final(self).detail_page, ..*old(self) })
                },
                Message::Management(m) => {
                    &&& cmds@.len() == 1
                    &&& cmds@[0] matches AppCommand::Management(c) && management_updated(
                        old(self).management_tab,
                        m,
                        final(self).management_tab,
                        c,
                    )
                    &&& *final(self) == (Plantbuddy { management_tab: final(self).management_tab, ..*old(self) })
                },
                Message::Settings(m) => {
                    &&& cmds@.len() == 0
                    &&& final(self).settings_tab.settings_of() == settings_after(old(self).settings_tab.settings_of(), m)
                    &&& *final(self) == (Plantbuddy { settings_tab: final(self).settings_tab, ..*old(self) })
                },
                Message::Logout(m) => {
                    &&& cmds@.len() == 0
                    &&& final(self).logout_tab.show_modal == (m == LogoutMessage::OpenModal)
                    &&& final(self).logout_tab.last_message == Some(m)
                    &&& *final(self) == (Plantbuddy {
                        logout_tab: final(self).logout_tab,
                        is_logged_in: final(self).is_logged_in,
                        user: final(self).user,
                        ..*old(self)
                    })
                    &&& m == LogoutMessage::OkButtonPressed ==> {
                        &&& final(self).is_logged_in == LoginState::NotLoggedIn
                        &&& final(self).user.name@ == Seq::<char>::empty()
                        &&& final(self).user.password@ == Seq::<char>::empty()
                        &&& final(self).user.role == 0
                    }
                    &&& m != LogoutMessage::OkButtonPressed ==> {
                        &&& final(self).is_logged_in == old(self).is_logged_in
                        &&& final(self).user == old(self).user
                    }
                },
            },
    {
        let mut cmds: Vec<AppCommand> = Vec::new();
        match message {
            Message::TabSelected(selected) => {
                self.active_tab = selected;
            },
            Message::Login(message) => {
                match message {
                    LoginMessage::Login(Ok(user)) => {
                        self.is_logged_in = LoginState::LoggedIn;
                        self.login_page = LoginTab::new();
                        self.management_tab.logged_in_user = user.clone();
                        self.user = user;
                        let c0 = self.home_page.update(HomeMessage::SwitchGraph(Sensortypes::Feuchtigkeit));
                        cmds.push(AppCommand::Home(c0));
                        let c1 = self.detail_page.update(DetailMessage::Load);
                        cmds.push(AppCommand::Detail(c1));
                        let c2 = self.management_tab.update(ManagementMessage::GetUsersPressed);
                        cmds.push(AppCommand::Management(c2));
                    },
                    other => {
                        let c = self.login_page.update(other);
                        cmds.push(AppCommand::Login(c));
                    },
                }
            },
            Message::Home(message) => {
                let c = self.home_page.update(message);
                cmds.push(AppCommand::Home(c));
            },
            Message::Detail(message) => {
                let c = self.detail_page.update(message);
                cmds.push(AppCommand::Detail(c));
            },
            Message::Settings(message) => {
                self.settings_tab.update(message);
            },
            Message::Logout(message) => {
                self.logout_tab.update(message);
                if message == LogoutMessage::OkButtonPressed {
                    self.is_logged_in = LoginState::NotLoggedIn;
                    self.user = TempCreationUser::default();
                }
            },
            Message::Management(message) => {
                let c = self.management_tab.update(message);
                cmds.push(AppCommand::Management(c));
            },
        }
        cmds
    }
}

/// Only admins see the user management, and only while logged in.
pub proof fn lemma_management_only_for_admins(logged_in: LoginState, role: u64)
    ensures
        tabs_shown(logged_in, role).contains(TabKind::Management) <==> (logged_in == LoginState::LoggedIn && role == 0),
{
    let s = tabs_shown(logged_in, role);
    if logged_in == LoginState::LoggedIn && role == 0 {
        assert(s[3] == TabKind::Management);
    }
    if s.contains(TabKind::Management) {
        let k = choose|k: int| 0 <= k < s.len() && s[k] == TabKind::Management;
        if !(logged_in == LoginState::LoggedIn && role == 0) {
            assert(s[k] != TabKind::Management);
        }
    }
}

} // verus!
