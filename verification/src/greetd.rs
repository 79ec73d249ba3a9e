use vstd::prelude::*;

use crate::remember::login_ops;
use crate::sessions::{source_command, Session, SessionSource, SessionType, SourceView};
use crate::state::{prompt_text, reset_from, App, AuthState, AuthStatus, Mode, UiState};
use crate::store::{op_views, FileOp, FileOpView};
use crate::text::{lit, push_char, push_str, views};

verus! {

/// The kind of a question or notice that greetd sends.
#[derive(Debug, Clone, Copy, PartialEq, Eq, Structural)]
pub enum AuthMessageKind {
    /// A question whose answer is shown while typed.
    Visible,
    /// A question whose answer is kept secret.
    Secret,
    /// A notice.
    Info,
    /// An error notice.
    Error,
}

/// The kind of an error that greetd reports.
#[derive(Debug, Clone, Copy, PartialEq, Eq, Structural)]
pub enum ErrorKind {
    /// A failure of some other kind; its description is shown.
    Error,
    /// The authentication failed.
    AuthError,
}

/// An answer from greetd.
#[derive(Debug)]
pub enum GreetdResponse {
    Success,
    Error { error_kind: ErrorKind, description: String },
    AuthMessage { message_kind: AuthMessageKind, message: String },
}

pub enum GreetdResponseView {
    Success,
    Error { error_kind: ErrorKind, description: Seq<char> },
    AuthMessage { message_kind: AuthMessageKind, message: Seq<char> },
}

impl View for GreetdResponse {
    type V = GreetdResponseView;

    open spec fn view(&self) -> GreetdResponseView {
        match self {
            GreetdResponse::Success => GreetdResponseView::Success,
            GreetdResponse::Error { error_kind, description } => GreetdResponseView::Error {
                error_kind: *error_kind,
                description: description@,
            },
            GreetdResponse::AuthMessage { message_kind, message } => GreetdResponseView::AuthMessage {
                message_kind: *message_kind,
                message: message@,
            },
        }
    }
}

/// What the caller does after greetd has answered.
#[derive(Debug)]
pub enum GreetdAction {
    /// Wait for the user.
    Wait,
    /// Tell greetd that the notice was seen (an answer with no text), and
    /// hand over its next answer.
    Acknowledge,
    /// Ask greetd to start the session with this command line and
    /// environment, and hand over its answer.
    StartSession(Vec<String>, Vec<String>),
    /// Cancel the session being set up, then wait for the user.
    Cancel,
    /// The session has started: make these changes to the remembered
    /// files, and leave.
    Finish(Vec<FileOp>),
}

pub enum GreetdActionView {
    Wait,
    Acknowledge,
    StartSession(Seq<Seq<char>>, Seq<Seq<char>>),
    Cancel,
    Finish(Seq<FileOpView>),
}

impl View for GreetdAction {
    type V = GreetdActionView;

    open spec fn view(&self) -> GreetdActionView {
        match self {
            GreetdAction::Wait => GreetdActionView::Wait,
            GreetdAction::Acknowledge => GreetdActionView::Acknowledge,
            GreetdAction::StartSession(c, e) => GreetdActionView::StartSession(views(c@), views(e@)),
            GreetdAction::Cancel => GreetdActionView::Cancel,
            GreetdAction::Finish(ops) => GreetdActionView::Finish(op_views(ops@)),
        }
    }
}

// ---------------------------------------------------------------------------
// The session command
// ---------------------------------------------------------------------------

/// The XDG name of a kind of session.
pub open spec fn xdg_name(t: SessionType) -> Seq<char> {
    match t {
        SessionType::X11 => "x11"@,
        SessionType::Wayland => "wayland"@,
        SessionType::Tty => "tty"@,
        SessionType::Unspecified => "unspecified"@,
    }
}

/// The listed session that the source points at, if it points at one.
pub open spec fn selected_session(app: App) -> Option<Session> {
    match app.sessions.source {
        SessionSource::Session(i) => if i < app.sessions.menu.options.len() {
            Some(app.sessions.menu.options@[i as int])
        } else {
            None
        },
        _ => None,
    }
}

/// The command that the source starts; empty without one.
pub open spec fn start_command(app: App) -> Seq<char> {
    match source_command(app.sessions.source@, app.sessions.menu.options@) {
        Some(c) => c,
        None => Seq::empty(),
    }
}

/// A command run through a wrapper, when there is one: the wrapper, a
/// space, then the command.
pub open spec fn wrapped(wrapper: Option<String>, c: Seq<char>) -> Seq<char> {
    match wrapper {
        Some(w) => w@ + seq![' '] + c,
        None => c,
    }
}

/// The environment of a listed session: its desktop names from the slug,
/// its XDG type unless unspecified, and its XDG desktop names.
pub open spec fn session_env(s: Session) -> Seq<Seq<char>> {
    (match s.slug {
        Some(sl) => seq!["XDG_SESSION_DESKTOP="@ + sl@, "DESKTOP_SESSION="@ + sl@],
        None => Seq::empty(),
    }) + (if s.session_type != SessionType::Unspecified {
        seq!["XDG_SESSION_TYPE="@ + xdg_name(s.session_type)]
    } else {
        Seq::empty()
    }) + (match s.xdg_desktop_names {
        Some(n) => seq!["XDG_CURRENT_DESKTOP="@ + n@],
        None => Seq::empty(),
    })
}

/// The environment given with the default command, if any.
pub open spec fn default_env(src: SourceView) -> Seq<Seq<char>> {
    match src {
        SourceView::DefaultCommand(_, Some(e)) => e,
        _ => Seq::empty(),
    }
}

/// The command line and environment that start the chosen session: for a
/// listed session, its command through the X11 wrapper for an X11 session
/// and through the session wrapper otherwise, with the session's
/// environment; for a command, the command through the session wrapper,
/// with the default command's environment.
pub open spec fn session_command_spec(app: App) -> (Seq<Seq<char>>, Seq<Seq<char>>) {
    match selected_session(app) {
        Some(s) => (
            seq![
                wrapped(
                    if s.session_type == SessionType::X11 {
                        app.sessions.xsession_wrapper
                    } else {
                        app.sessions.session_wrapper
                    },
                    start_command(app),
                ),
            ],
            session_env(s),
        ),
        None => (
            seq![wrapped(app.sessions.session_wrapper, start_command(app))],
            default_env(app.sessions.source@),
        ),
    }
}

fn joined(a: &str, b: &str) -> (r: String)
    ensures
        r@ == a@ + b@,
{
    let mut r = lit(a);
    push_str(&mut r, b);
    r
}

fn wrap(wrapper: &Option<String>, c: &str) -> (r: String)
    ensures
        r@ == wrapped(*wrapper, c@),
{
    match wrapper {
        Some(w) => {
            let mut r = w.clone();
            push_char(&mut r, ' ');
            push_str(&mut r, c);
            r
        },
        None => lit(c),
    }
}

fn env_of(s: &Session) -> (r: Vec<String>)
    ensures
        views(r@) == session_env(*s),
{
    let mut env: Vec<String> = Vec::new();
    if let Some(sl) = &s.slug {
        env.push(joined("XDG_SESSION_DESKTOP=", sl.as_str()));
        env.push(joined("DESKTOP_SESSION=", sl.as_str()));
    }
    let ghost e1 = views(env@);
    if s.session_type != SessionType::Unspecified {
        env.push(joined("XDG_SESSION_TYPE=", s.session_type.as_xdg_session_type()));
    }
    let ghost e2 = views(env@);
    if let Some(n) = &s.xdg_desktop_names {
        env.push(joined("XDG_CURRENT_DESKTOP=", n.as_str()));
    }
    assert(views(env@) =~= session_env(*s));
    env
}

/// The command line and environment that start the chosen session.
pub fn session_command(app: &App) -> (r: (Vec<String>, Vec<String>))
    ensures
        (views(r.0@), views(r.1@)) == session_command_spec(*app),
{
    let command = match app.sessions.source.command(app) {
        Some(c) => c,
        None => "",
    };
    proof {
        reveal_strlit("");
    }
    match Session::get_selected(app) {
        Some(s) => {
            let wrapper = if s.session_type == SessionType::X11 {
                &app.sessions.xsession_wrapper
            } else {
                &app.sessions.session_wrapper
            };
            let cmd = vec![wrap(wrapper, command)];
            let env = env_of(s);
            assert(views(cmd@) =~= session_command_spec(*app).0);
            (cmd, env)
        },
        None => {
            let env = match app.sessions.source.env() {
                Some(e) => e,
                None => Vec::new(),
            };
            let w = wrap(&app.sessions.session_wrapper, command);
            assert(selected_session(*app) is None);
            assert(command@ == start_command(*app));
            let cmd = vec![w];
            assert(views(cmd@) =~= session_command_spec(*app).0);
            proof {
                match &app.sessions.source {
                    SessionSource::DefaultCommand(_, Some(e)) => {
                        assert(env@ == e@);
                        assert(views(env@) =~= views(e@));
                    },
                    _ => {
                        assert(env@.len() == 0);
                        assert(views(env@) =~= Seq::<Seq<char>>::empty());
                    },
                }
            }
            assert(views(env@) =~= session_command_spec(*app).1);
            (cmd, env)
        },
    }
}

// ---------------------------------------------------------------------------
// Answers from greetd
// ---------------------------------------------------------------------------

/// The message shown when authentication fails.
pub open spec fn auth_failed_text() -> Seq<char> {
    "Authentication failed"@
}

/// What an answer from greetd does to the greeter, and what the caller is
/// to do next:
/// - a question becomes the prompt, on the secret prompt screen, and the
///   greeter waits for the user's answer (kept secret for a secret
///   question);
/// - a notice becomes the message, and is acknowledged;
/// - success while the session is not yet started starts it, with the
///   chosen session's command; success once it is started records what is
///   remembered of the login and ends the greeter;
/// - an error becomes the message (a fixed one for a failed
///   authentication), the greeter is reset to its first screen, and the
///   session is cancelled.
pub open spec fn response_handled(o: App, n: App, resp: GreetdResponseView, act: GreetdActionView) -> bool {
    match resp {
        GreetdResponseView::AuthMessage { message_kind, message } => match message_kind {
            AuthMessageKind::Visible | AuthMessageKind::Secret => {
                &&& act == GreetdActionView::Wait
                &&& n.auth.prompt is Some
                &&& n.auth.prompt->0@ == prompt_text(message)
                &&& n == App {
                    auth: AuthState {
                        asking_for_secret: message_kind == AuthMessageKind::Secret,
                        prompt: n.auth.prompt,
                        mode: Mode::Password,
                        previous_mode: Mode::Password,
                        ..o.auth
                    },
                    working: false,
                    ..o
                }
            },
            AuthMessageKind::Info | AuthMessageKind::Error => {
                &&& act == GreetdActionView::Acknowledge
                &&& n.ui.message is Some
                &&& n.ui.message->0@ == message
                &&& n == App { ui: UiState { message: n.ui.message, ..o.ui }, ..o }
            },
        },
        GreetdResponseView::Success => if o.done {
            &&& act == GreetdActionView::Finish(login_ops(o.remember, o))
            &&& n == App { exit: Some(AuthStatus::Success), ..o }
        } else {
            let (cmd, env) = session_command_spec(o);
            &&& act == GreetdActionView::StartSession(cmd, env)
            &&& n == App { done: true, ..o }
        },
        GreetdResponseView::Error { error_kind, description } => {
            &&& act == GreetdActionView::Cancel
            &&& n.ui.message is Some
            &&& n.ui.message->0@ == (if error_kind == ErrorKind::AuthError {
                auth_failed_text()
            } else {
                description
            })
            &&& reset_from(App { ui: UiState { message: n.ui.message, ..o.ui }, ..o }, n, false)
        },
    }
}

impl App {
    /// Takes an answer from greetd: see `response_handled`.
    pub fn on_greetd_response(&mut self, resp: GreetdResponse) -> (r: GreetdAction)
        ensures
            response_handled(*old(self), *final(self), resp@, r@),
    {
        match resp {
            GreetdResponse::AuthMessage { message_kind, message } => match message_kind {
                AuthMessageKind::Visible | AuthMessageKind::Secret => {
                    self.auth.asking_for_secret = message_kind == AuthMessageKind::Secret;
                    self.set_prompt(message.as_str());
                    self.auth.mode = Mode::Password;
                    self.auth.previous_mode = Mode::Password;
                    self.working = false;
                    GreetdAction::Wait
                },
                AuthMessageKind::Info | AuthMessageKind::Error => {
                    self.ui.message = Some(message);
                    GreetdAction::Acknowledge
                },
            },
            GreetdResponse::Success => {
                if self.done {
                    let ops = self.remember.save_on_login(self);
                    self.finish(AuthStatus::Success);
                    GreetdAction::Finish(ops)
                } else {
                    self.done = true;
                    let (cmd, env) = session_command(self);
                    GreetdAction::StartSession(cmd, env)
                }
            },
            GreetdResponse::Error { error_kind, description } => {
                let text = match error_kind {
                    ErrorKind::AuthError => lit("Authentication failed"),
                    ErrorKind::Error => description,
                };
                self.ui.message = Some(text);
                self.reset(false);
                GreetdAction::Cancel
            },
        }
    }
}

} // verus!
