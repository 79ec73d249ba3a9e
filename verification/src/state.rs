use vstd::prelude::*;
use crate::text::{lit, clone_opt};

use crate::config::{is_cli_default, Config};
use crate::masked::MaskedString;
use crate::menu::Menu;
use crate::power::Power;
use crate::remember::Remember;
use crate::sessions::{Session, SessionSource, SessionType};
use crate::style::Theme;
use crate::users::User;
use crate::power::PowerOption;
use crate::sessions::{clone_strings, SourceView};
use crate::store::Store;
use crate::style::theme_spec;
use crate::text::{push_str, split_spec, split_strings, views};
use zeroize::Zeroize;

verus! {

/// `Zeroize::zeroize` on a `String` (zeroize crate): overwrites the
/// string's bytes, including spare capacity, with zeros and clears it, so
/// the string is empty afterwards. That the old bytes no longer sit in
/// memory is what the call is for, and nothing here states it.
#[verifier::external_body]
fn wipe_string(s: &mut String)
    ensures
        final(s)@ == Seq::<char>::empty(),
{
    s.zeroize();
}

/// `Zeroize::zeroize` on an `Option<String>` (zeroize crate): wipes the
/// string it holds, if any, and leaves `None`. As for `wipe_string`, the
/// wiping itself is not stated.
#[verifier::external_body]
fn wipe_option(o: &mut Option<String>)
    ensures
        *final(o) is None,
{
    o.zeroize();
}

/// The screen the greeter shows, and so what input it expects.
#[derive(Debug, Clone, Copy, PartialEq, Eq, Structural)]
pub enum Mode {
    Username,
    Password,
    Action,
    Users,
    Command,
    Sessions,
    Power,
    Processing,
}

impl Default for Mode {
    fn default() -> (r: Mode)
        ensures
            r == Mode::Username,
    {
        Mode::Username
    }
}

/// How an authentication attempt ended.
#[derive(Debug, Clone, Copy, PartialEq, Eq, Structural)]
pub enum AuthStatus {
    Success,
    Failure,
    Cancel,
}

impl AuthStatus {
    /// The status's name, as it is printed.
    pub fn name(&self) -> (r: &'static str)
        ensures
            r@ == match self {
                AuthStatus::Success => "Success"@,
                AuthStatus::Failure => "Failure"@,
                AuthStatus::Cancel => "Cancel"@,
            },
    {
        match self {
            AuthStatus::Success => "Success",
            AuthStatus::Failure => "Failure",
            AuthStatus::Cancel => "Cancel",
        }
    }
}

/// How typed secrets are shown.
#[derive(Debug)]
pub enum SecretDisplay {
    Hidden,
    Character(String),
}

impl Default for SecretDisplay {
    fn default() -> (r: SecretDisplay)
        ensures
            r is Hidden,
    {
        SecretDisplay::Hidden
    }
}

impl SecretDisplay {
    /// Whether anything is shown for a typed secret.
    pub fn show(&self) -> (r: bool)
        ensures
            r == (self is Character),
    {
        match self {
            SecretDisplay::Hidden => false,
            SecretDisplay::Character(_) => true,
        }
    }
}

/// How the greeting text is aligned.
#[derive(Debug, Clone, Copy, PartialEq, Eq, Structural)]
pub enum GreetAlign {
    Center,
    Left,
    Right,
}

impl Default for GreetAlign {
    fn default() -> (r: GreetAlign)
        ensures
            r == GreetAlign::Center,
    {
        GreetAlign::Center
    }
}

/// Authentication-related state.
#[derive(Debug)]
pub struct AuthState {
    pub mode: Mode,
    pub previous_mode: Mode,
    pub cursor_offset: i16,
    pub previous_buffer: Option<String>,
    pub buffer: String,
    pub username: MaskedString,
    pub prompt: Option<String>,
    pub asking_for_secret: bool,
    pub secret_display: SecretDisplay,
}

/// Session management state.
#[derive(Debug)]
pub struct SessionState {
    pub source: SessionSource,
    pub paths: Vec<(String, SessionType)>,
    pub menu: Menu<Session>,
    pub session_wrapper: Option<String>,
    pub xsession_wrapper: Option<String>,
}

/// User menu state.
#[derive(Debug)]
pub struct UserState {
    pub menu_enabled: bool,
    pub menu: Menu<User>,
}

/// Power menu state.
#[derive(Debug)]
pub struct PowerState {
    pub menu: Menu<Power>,
    pub setsid: bool,
}

/// UI display state.
#[derive(Debug)]
pub struct UiState {
    pub time: bool,
    pub time_format: Option<String>,
    pub greeting: Option<String>,
    pub ascii_art: Option<String>,
    pub message: Option<String>,
    pub remember: bool,
    pub remember_session: bool,
    pub remember_user_session: bool,
}

/// The state of the greeter.
#[derive(Debug)]
pub struct App {
    pub config: Config,
    pub auth: AuthState,
    pub sessions: SessionState,
    pub users: UserState,
    pub power: PowerState,
    pub theme: Theme,
    pub ui: UiState,
    pub remember: Remember,
    pub socket: String,
    pub working: bool,
    pub done: bool,
    pub exit: Option<AuthStatus>,
}

/// `n` is `o` back on the first screen (the secret prompt when `soft`),
/// idle, with the typed secret and the prompt wiped, and the user name too
/// unless `soft`.
pub open spec fn reset_from(o: App, n: App, soft: bool) -> bool {
    &&& n.auth.mode == (if soft { Mode::Password } else { Mode::Username })
    &&& n.auth.previous_mode == n.auth.mode
    &&& n.auth.buffer@ == Seq::<char>::empty()
    &&& n.auth.prompt is None
    &&& soft ==> n.auth.username == o.auth.username
    &&& !soft ==> n.auth.username.value@ == Seq::<char>::empty() && n.auth.username.mask is None
    &&& n == App {
        auth: AuthState {
            mode: n.auth.mode,
            previous_mode: n.auth.previous_mode,
            buffer: n.auth.buffer,
            prompt: n.auth.prompt,
            username: n.auth.username,
            ..o.auth
        },
        working: false,
        done: false,
        ..o
    }
}

/// What is remembered by the flags that the screen state carries, kept
/// where the greeter's own memory keeps it.
pub open spec fn ui_remember(app: App) -> Remember {
    Remember {
        username: app.ui.remember,
        session: app.ui.remember_session,
        user_session: app.ui.remember_user_session,
        data_dir: app.remember.data_dir,
    }
}

/// The screen's remember flags and the greeter's memory agree.
pub open spec fn remember_flags_agree(app: App) -> bool {
    &&& app.ui.remember == app.remember.username
    &&& app.ui.remember_session == app.remember.session
    &&& app.ui.remember_user_session == app.remember.user_session
}

/// A prompt as shown: ending with a space.
pub open spec fn prompt_text(p: Seq<char>) -> Seq<char> {
    if p.len() > 0 && p.last() == ' ' {
        p
    } else {
        p.push(' ')
    }
}

impl App {
    /// Wipes the typed secret and the prompt; also the user name unless
    /// `soft`, and the message when `scrub_message`.
    pub fn scrub(&mut self, scrub_message: bool, soft: bool)
        ensures
            final(self).auth.buffer@ == Seq::<char>::empty(),
            final(self).auth.prompt is None,
            soft ==> final(self).auth.username == old(self).auth.username,
            !soft ==> final(self).auth.username.value@ == Seq::<char>::empty()
                && final(self).auth.username.mask is None,
            scrub_message ==> final(self).ui.message is None,
            !scrub_message ==> final(self).ui.message == old(self).ui.message,
            *final(self) == (App {
                auth: AuthState {
                    buffer: final(self).auth.buffer,
                    prompt: final(self).auth.prompt,
                    username: final(self).auth.username,
                    ..old(self).auth
                },
                ui: UiState { message: final(self).ui.message, ..old(self).ui },
                ..*old(self)
            }),
    {
        wipe_string(&mut self.auth.buffer);
        wipe_option(&mut self.auth.prompt);
        if !soft {
            wipe_string(&mut self.auth.username.value);
            wipe_option(&mut self.auth.username.mask);
        }
        if scrub_message {
            wipe_option(&mut self.ui.message);
        }
    }

    /// Back to the first screen (to the secret prompt when `soft`), idle,
    /// with the typed input wiped. Connecting anew is left to the caller.
    pub fn reset(&mut self, soft: bool)
        ensures
            reset_from(*old(self), *final(self), soft),
    {
        if soft {
            self.auth.mode = Mode::Password;
            self.auth.previous_mode = Mode::Password;
        } else {
            self.auth.mode = Mode::Username;
            self.auth.previous_mode = Mode::Username;
        }
        self.working = false;
        self.done = false;
        self.scrub(false, soft);
    }

    /// Shows a prompt, ending it with a space when it does not end with one.
    pub fn set_prompt(&mut self, prompt: &str)
        ensures
            final(self).auth.prompt is Some,
            final(self).auth.prompt->0@ == prompt_text(prompt@),
            *final(self) == (App {
                auth: AuthState { prompt: final(self).auth.prompt, ..old(self).auth },
                ..*old(self)
            }),
    {
        let v = crate::text::chars_of(prompt);
        let mut p = String::new();
        crate::text::push_str(&mut p, prompt);
        if !(v.len() > 0 && v[v.len() - 1] == ' ') {
            crate::text::push_char(&mut p, ' ');
        }
        self.auth.prompt = Some(p);
    }

    /// Removes the prompt.
    pub fn remove_prompt(&mut self)
        ensures
            *final(self) == (App { auth: AuthState { prompt: None, ..old(self).auth }, ..*old(self) }),
    {
        self.auth.prompt = None;
    }

    /// At start-up, with a remembered user on the prompt, the greeter goes
    /// busy and asks greetd for a session for that user at once; the
    /// answer is the user to ask for, if any.
    pub fn initial_session(&mut self) -> (r: Option<String>)
        ensures
            if old(self).remember.username && old(self).auth.username.value@.len() > 0 {
                &&& r is Some
                &&& r->0@ == old(self).auth.username.value@
                &&& *final(self) == (App { working: true, ..*old(self) })
            } else {
                r is None && *final(self) == *old(self)
            },
    {
        if self.remember.username && !self.auth.username.value.as_str().is_empty() {
            self.working = true;
            Some(self.auth.username.value.clone())
        } else {
            None
        }
    }

    /// Records how the greeter ends. The answer says whether the session
    /// that greetd has open must be cancelled first: on any end but a
    /// successful login.
    pub fn finish(&mut self, status: AuthStatus) -> (cancel: bool)
        ensures
            cancel == !(status is Success),
            *final(self) == (App { exit: Some(status), ..*old(self) }),
    {
        let cancel = match status {
            AuthStatus::Success => false,
            AuthStatus::Cancel | AuthStatus::Failure => true,
        };
        self.exit = Some(status);
        cancel
    }

    /// The width of the prompt in characters; zero without a prompt.
    pub fn prompt_width(&self) -> (r: usize)
        ensures
            r == match self.auth.prompt {
                Some(p) => p@.len(),
                None => 0,
            },
    {
        match &self.auth.prompt {
            None => 0,
            Some(p) => crate::text::char_count(p.as_str()),
        }
    }
}

/// The views of session directories and their types.
pub open spec fn paths_view(v: Seq<(String, SessionType)>) -> Seq<(Seq<char>, SessionType)> {
    v.map_values(|p: (String, SessionType)| (p.0@, p.1))
}

pub open spec fn typed(dirs: Seq<Seq<char>>, t: SessionType) -> Seq<(Seq<char>, SessionType)> {
    dirs.map_values(|d: Seq<char>| (d, t))
}

/// The session directories that the settings name: the Wayland ones, then
/// the X11 ones, each list split at `:`.
pub open spec fn config_paths(c: Config) -> Seq<(Seq<char>, SessionType)> {
    (match c.sessions {
        Some(s) => typed(split_spec(s@, ':'), SessionType::Wayland),
        None => seq![],
    }) + (match c.xsessions {
        Some(s) => typed(split_spec(s@, ':'), SessionType::X11),
        None => seq![],
    })
}

fn add_paths(paths: &mut Vec<(String, SessionType)>, dirs: &str, t: SessionType)
    ensures
        paths_view(final(paths)@) == paths_view(old(paths)@) + typed(split_spec(dirs@, ':'), t),
{
    let parts = split_strings(dirs, ':');
    let mut i: usize = 0;
    let ghost start = paths_view(paths@);
    while i < parts.len()
        invariant
            i <= parts.len(),
            views(parts@) == split_spec(dirs@, ':'),
            paths_view(paths@) == start + typed(views(parts@).take(i as int), t),
        decreases parts.len() - i,
    {
        let ghost before = paths_view(paths@);
        paths.push((parts[i].clone(), t));
        assert(paths_view(paths@) =~= before.push((parts@[i as int]@, t)));
        assert(typed(views(parts@).take(i + 1), t) =~= typed(views(parts@).take(i as int), t).push(
            (parts@[i as int]@, t),
        ));
        i += 1;
    }
    assert(views(parts@).take(parts.len() as int) == views(parts@));
}

/// The power menu entries the settings give: shutdown and reboot with
/// their commands if set, suspend and hibernate with theirs.
pub open spec fn power_entries_match(options: Seq<Power>, c: Config) -> bool {
    &&& options.len() == 4
    &&& options[0].action == PowerOption::Shutdown && options[0].label@ == "Shutdown"@
        && options[0].command == c.power_shutdown
    &&& options[1].action == PowerOption::Reboot && options[1].label@ == "Reboot"@
        && options[1].command == c.power_reboot
    &&& options[2].action == PowerOption::Suspend && options[2].label@ == "Suspend"@
        && options[2].command == Some(c.power_suspend)
    &&& options[3].action == PowerOption::Hibernate && options[3].label@ == "Hibernate"@
        && options[3].command == Some(c.power_hibernate)
}

/// The session part of the start-up state: the default command with its
/// environment, the session directories to scan and the wrappers.
fn session_state_from(config: &Config) -> (r: SessionState)
    ensures
        r.source@ == match config.cmd {
            Some(c) => SourceView::DefaultCommand(
                c@,
                if config.env.len() == 0 {
                    None
                } else {
                    Some(views(config.env@))
                },
            ),
            None => SourceView::Unset,
        },
        paths_view(r.paths@) == config_paths(*config),
        r.menu.title@ == "Sessions"@,
        r.menu.options@.len() == 0,
        r.menu.selected == 0,
        r.session_wrapper == config.session_wrapper,
        r.xsession_wrapper == if config.no_xsession_wrapper {
            None
        } else {
            Some(config.xsession_wrapper)
        },
{
    let source = match &config.cmd {
        Some(cmd) => {
            let envs = if config.env.len() == 0 {
                None
            } else {
                Some(clone_strings(&config.env))
            };
            SessionSource::DefaultCommand(cmd.clone(), envs)
        },
        None => SessionSource::Unset,
    };
    let mut paths: Vec<(String, SessionType)> = Vec::new();
    if let Some(dirs) = &config.sessions {
        add_paths(&mut paths, dirs.as_str(), SessionType::Wayland);
    }
    if let Some(dirs) = &config.xsessions {
        add_paths(&mut paths, dirs.as_str(), SessionType::X11);
    }
    assert(paths_view(paths@) =~= config_paths(*config));
    let xsession_wrapper = if config.no_xsession_wrapper {
        None
    } else {
        Some(config.xsession_wrapper.clone())
    };
    SessionState {
        source,
        paths,
        menu: Menu { title: lit("Sessions"), options: Vec::new(), selected: 0 },
        session_wrapper: clone_opt(&config.session_wrapper),
        xsession_wrapper,
    }
}

/// The power menu of the start-up state, one entry per action.
fn power_state_from(config: &Config) -> (r: PowerState)
    ensures
        r.menu.title@ == "Power"@,
        power_entries_match(r.menu.options@, *config),
        r.menu.selected == 0,
        r.setsid,
{
    let mut options: Vec<Power> = Vec::new();
    options.push(
        Power {
            action: PowerOption::Shutdown,
            label: lit("Shutdown"),
            command: clone_opt(&config.power_shutdown),
        },
    );
    options.push(
        Power {
            action: PowerOption::Reboot,
            label: lit("Reboot"),
            command: clone_opt(&config.power_reboot),
        },
    );
    options.push(
        Power {
            action: PowerOption::Suspend,
            label: lit("Suspend"),
            command: Some(config.power_suspend.clone()),
        },
    );
    options.push(
        Power {
            action: PowerOption::Hibernate,
            label: lit("Hibernate"),
            command: Some(config.power_hibernate.clone()),
        },
    );
    PowerState { menu: Menu { title: lit("Power"), options, selected: 0 }, setsid: true }
}

/// What the screen shows besides the prompts, from the settings.
fn ui_state_from(config: &Config, issue: Option<String>, ascii_art: Option<String>) -> (r: UiState)
    ensures
        r.time == config.time,
        r.time_format == config.time_format,
        r.greeting == if config.issue {
            issue
        } else {
            config.greeting
        },
        r.ascii_art == ascii_art,
        r.message is None,
        r.remember == config.remember,
        r.remember_session == config.remember_session,
        r.remember_user_session == config.remember_user_session,
{
    let greeting = if config.issue {
        issue
    } else {
        clone_opt(&config.greeting)
    };
    UiState {
        time: config.time,
        time_format: clone_opt(&config.time_format),
        greeting,
        ascii_art,
        message: None,
        remember: config.remember,
        remember_session: config.remember_session,
        remember_user_session: config.remember_user_session,
    }
}

impl App {
    /// The greeter's state on start-up, before sessions, users and
    /// remembered state are loaded: the settings applied, with the text of
    /// the issue file (used when the settings ask for it) and of the ANSI
    /// art file, as read by the caller.
    pub fn new(config: Config, socket: String, issue: Option<String>, ascii_art: Option<String>) -> (r:
        App)
        ensures
            r.config == config,
            r.socket == socket,
            r.auth.mode == Mode::Username,
            r.auth.previous_mode == Mode::Username,
            r.auth.cursor_offset == 0,
            r.auth.previous_buffer is None,
            r.auth.buffer@ == Seq::<char>::empty(),
            r.auth.username.value@ == Seq::<char>::empty(),
            r.auth.username.mask is None,
            r.auth.prompt is None,
            !r.auth.asking_for_secret,
            if config.asterisks {
                r.auth.secret_display == SecretDisplay::Character(config.asterisks_char)
            } else {
                r.auth.secret_display is Hidden
            },
            r.sessions.source@ == match config.cmd {
                Some(c) => SourceView::DefaultCommand(
                    c@,
                    if config.env.len() == 0 {
                        None
                    } else {
                        Some(views(config.env@))
                    },
                ),
                None => SourceView::Unset,
            },
            paths_view(r.sessions.paths@) == config_paths(config),
            r.sessions.menu.title@ == "Sessions"@,
            r.sessions.menu.options@.len() == 0,
            r.sessions.menu.selected == 0,
            r.sessions.session_wrapper == config.session_wrapper,
            r.sessions.xsession_wrapper == if config.no_xsession_wrapper {
                None
            } else {
                Some(config.xsession_wrapper)
            },
            !r.users.menu_enabled,
            r.users.menu.title@ == "Users"@,
            r.users.menu.options@.len() == 0,
            r.users.menu.selected == 0,
            r.power.menu.title@ == "Power"@,
            power_entries_match(r.power.menu.options@, config),
            r.power.menu.selected == 0,
            r.power.setsid,
            r.theme == match config.theme {
                Some(t) => theme_spec(t@),
                None => Theme::empty(),
            },
            r.ui.time == config.time,
            r.ui.time_format == config.time_format,
            r.ui.greeting == if config.issue {
                issue
            } else {
                config.greeting
            },
            r.ui.ascii_art == ascii_art,
            r.ui.message is None,
            r.ui.remember == config.remember,
            r.ui.remember_session == config.remember_session,
            r.ui.remember_user_session == config.remember_user_session,
            r.remember.username == config.remember,
            r.remember.session == config.remember_session,
            r.remember.user_session == config.remember_user_session,
            r.remember.dir() == crate::remember::DEFAULT_DATA_DIR@,
            remember_flags_agree(r),
            !r.working,
            !r.done,
            r.exit is None,
    {
        let theme = match &config.theme {
            Some(t) => Theme::parse(t.as_str()),
            None => Theme::default(),
        };
        let secret_display = if config.asterisks {
            SecretDisplay::Character(config.asterisks_char.clone())
        } else {
            SecretDisplay::Hidden
        };
        let sessions = session_state_from(&config);
        let power = power_state_from(&config);
        let ui = ui_state_from(&config, issue, ascii_art);
        let remember = Remember::new(config.remember, config.remember_session, config.remember_user_session);
        App {
            config,
            auth: AuthState {
                mode: Mode::Username,
                previous_mode: Mode::Username,
                cursor_offset: 0,
                previous_buffer: None,
                buffer: String::new(),
                username: MaskedString::empty(),
                prompt: None,
                asking_for_secret: false,
                secret_display,
            },
            sessions,
            users: UserState {
                menu_enabled: false,
                menu: Menu { title: lit("Users"), options: Vec::new(), selected: 0 },
            },
            power,
            theme,
            ui,
            remember,
            socket,
            working: false,
            done: false,
            exit: None,
        }
    }

    /// Takes the sessions found on disk; without a chosen session the first
    /// one is chosen.
    pub fn load_sessions(&mut self, sessions: Vec<Session>)
        ensures
            final(self).sessions.menu.options@ == sessions@,
            final(self).sessions.source@ == (if old(self).sessions.source is Unset && sessions@.len()
                > 0 {
                SourceView::Session(0)
            } else {
                old(self).sessions.source@
            }),
            *final(self) == (App {
                sessions: SessionState {
                    source: final(self).sessions.source,
                    menu: Menu { options: final(self).sessions.menu.options, ..old(self).sessions.menu },
                    ..old(self).sessions
                },
                ..*old(self)
            }),
    {
        if let SessionSource::Unset = self.sessions.source {
            if sessions.len() > 0 {
                self.sessions.source = SessionSource::Session(0);
            }
        }
        self.sessions.menu.options = sessions;
    }

    /// Takes the users that the user menu lists, when the menu is enabled;
    /// a single user is chosen at once.
    pub fn load_users(&mut self, users: Vec<User>)
        ensures
            !old(self).config.user_menu ==> *final(self) == *old(self),
            old(self).config.user_menu ==> ({
                &&& final(self).users.menu_enabled
                &&& final(self).users.menu.options@ == users@
                &&& final(self).users.menu.title == old(self).users.menu.title
                &&& final(self).users.menu.selected == old(self).users.menu.selected
                &&& if users@.len() == 1 {
                    final(self).auth.username.value == users@[0].username
                        && final(self).auth.username.mask == users@[0].name
                } else {
                    final(self).auth.username == old(self).auth.username
                }
                &&& *final(self) == App {
                    users: final(self).users,
                    auth: AuthState { username: final(self).auth.username, ..old(self).auth },
                    ..*old(self)
                }
            }),
    {
        if !self.config.user_menu {
            return ;
        }
        self.users.menu_enabled = true;
        self.users.menu.options = users;
        if self.users.menu.options.len() == 1 {
            let value = self.users.menu.options[0].username.clone();
            let mask = clone_opt(&self.users.menu.options[0].name);
            self.auth.username = MaskedString::from(value, mask);
        }
    }

    /// Restores what is remembered, as the screen's remember flags ask: the
    /// last user and sessions, from the greeter's data directory.
    pub fn restore_remembered(&mut self, store: &Store)
        ensures
            match crate::remember::remembered_user(ui_remember(*old(self)), store@) {
                Some(u) => {
                    &&& final(self).auth.username@ == u
                    &&& final(self).auth == AuthState {
                        username: final(self).auth.username,
                        ..old(self).auth
                    }
                },
                None => final(self).auth == old(self).auth,
            },
            (final(self).sessions.source@, final(self).sessions.menu.selected as int)
                == crate::remember::restored_sessions(
                ui_remember(*old(self)),
                store@,
                final(self).auth.username@.value,
                old(self).sessions.source@,
                old(self).sessions.menu.selected as int,
                old(self).sessions.menu.options@,
            ),
            *final(self) == (App {
                auth: final(self).auth,
                sessions: SessionState {
                    source: final(self).sessions.source,
                    menu: Menu {
                        selected: final(self).sessions.menu.selected,
                        ..old(self).sessions.menu
                    },
                    ..old(self).sessions
                },
                ..*old(self)
            }),
    {
        let remember = Remember::new_with_dir(
            self.ui.remember,
            self.ui.remember_session,
            self.ui.remember_user_session,
            self.remember.data_dir.clone(),
        );
        remember.restore(store, &mut self.auth, &mut self.sessions);
    }
}

impl Default for App {
    /// An idle greeter on the user name prompt, with the settings of an
    /// empty command line and no power entries.
    fn default() -> (r: App)
        ensures
            is_cli_default(r.config),
            r.auth.mode == Mode::Username,
            r.auth.previous_mode == Mode::Username,
            r.auth.cursor_offset == 0,
            r.auth.previous_buffer is None,
            r.auth.buffer@ == Seq::<char>::empty(),
            r.auth.username.value@ == Seq::<char>::empty(),
            r.auth.username.mask is None,
            r.auth.prompt is None,
            r.sessions.source is Unset,
            r.sessions.menu.options@.len() == 0,
            r.users.menu.options@.len() == 0,
            r.power.menu.options@.len() == 0,
            !r.users.menu_enabled,
            !r.remember.username && !r.remember.session && !r.remember.user_session,
            r.ui.message is None,
            !r.working,
            !r.done,
            r.exit is None,
            !r.auth.asking_for_secret,
            r.auth.secret_display is Hidden,
            r.sessions.paths@.len() == 0,
            r.sessions.menu.title@ == "Sessions"@,
            r.sessions.menu.selected == 0,
            r.sessions.session_wrapper is None,
            r.sessions.xsession_wrapper is Some,
            r.sessions.xsession_wrapper->0@ == "startx /usr/bin/env"@,
            r.users.menu.title@ == "Users"@,
            r.users.menu.selected == 0,
            r.power.menu.title@ == "Power"@,
            r.power.menu.selected == 0,
            r.power.setsid,
            r.theme == Theme::empty(),
            !r.ui.time && r.ui.time_format is None && r.ui.greeting is None && r.ui.ascii_art is None,
            !r.ui.remember && !r.ui.remember_session && !r.ui.remember_user_session,
            r.remember.dir() == crate::remember::DEFAULT_DATA_DIR@,
            r.socket@ == Seq::<char>::empty(),
            remember_flags_agree(r),
    {
        App {
            config: Config::cli_defaults(),
            auth: AuthState {
                mode: Mode::Username,
                previous_mode: Mode::Username,
                cursor_offset: 0,
                previous_buffer: None,
                buffer: String::new(),
                username: MaskedString::empty(),
                prompt: None,
                asking_for_secret: false,
                secret_display: SecretDisplay::Hidden,
            },
            sessions: SessionState {
                source: SessionSource::Unset,
                paths: Vec::new(),
                menu: Menu { title: lit("Sessions"), options: Vec::new(), selected: 0 },
                session_wrapper: None,
                xsession_wrapper: Some(lit("startx /usr/bin/env")),
            },
            users: UserState {
                menu_enabled: false,
                menu: Menu { title: lit("Users"), options: Vec::new(), selected: 0 },
            },
            power: PowerState {
                menu: Menu { title: lit("Power"), options: Vec::new(), selected: 0 },
                setsid: true,
            },
            theme: Theme::default(),
            ui: UiState {
                time: false,
                time_format: None,
                greeting: None,
                ascii_art: None,
                message: None,
                remember: false,
                remember_session: false,
                remember_user_session: false,
            },
            remember: Remember::new(false, false, false),
            socket: String::new(),
            working: false,
            done: false,
            exit: None,
        }
    }
}

} // verus!
