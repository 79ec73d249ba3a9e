use greetui::greetd::{session_command, AuthMessageKind, ErrorKind, GreetdAction, GreetdResponse};
use greetui::masked::MaskedString;
use greetui::power::{exited_message, failed_message};
use greetui::sessions::{Session, SessionSource, SessionType};
use greetui::state::{App, AuthStatus, Mode, SecretDisplay};
use greetui::store::Store;

fn session(command: &str, kind: SessionType, slug: Option<&str>, desktops: Option<&str>) -> Session {
    Session {
        slug: slug.map(|s| s.to_string()),
        name: command.to_string(),
        command: command.to_string(),
        session_type: kind,
        path: Some(format!("/usr/share/sessions/{command}.desktop")),
        xdg_desktop_names: desktops.map(|s| s.to_string()),
    }
}

#[test]
fn secret_question_becomes_prompt() {
    let mut app = App::default();
    app.working = true;
    let act = app.on_greetd_response(GreetdResponse::AuthMessage {
        message_kind: AuthMessageKind::Secret,
        message: "Password:".to_string(),
    });
    assert!(matches!(act, GreetdAction::Wait));
    assert_eq!(app.auth.prompt.as_deref(), Some("Password: "));
    assert!(app.auth.asking_for_secret);
    assert_eq!(app.auth.mode, Mode::Password);
    assert_eq!(app.auth.previous_mode, Mode::Password);
    assert!(!app.working);

    let act = app.on_greetd_response(GreetdResponse::AuthMessage {
        message_kind: AuthMessageKind::Visible,
        message: "Code: ".to_string(),
    });
    assert!(matches!(act, GreetdAction::Wait));
    assert_eq!(app.auth.prompt.as_deref(), Some("Code: "));
    assert!(!app.auth.asking_for_secret);
}

#[test]
fn notice_is_shown_and_acknowledged() {
    let mut app = App::default();
    let act = app.on_greetd_response(GreetdResponse::AuthMessage {
        message_kind: AuthMessageKind::Info,
        message: "Touch the key".to_string(),
    });
    assert!(matches!(act, GreetdAction::Acknowledge));
    assert_eq!(app.ui.message.as_deref(), Some("Touch the key"));
    assert_eq!(app.auth.mode, Mode::Username);
}

#[test]
fn success_starts_session_then_finishes() {
    let mut app = App::default();
    app.remember.username = true;
    app.auth.username = MaskedString::from("bob".to_string(), None);
    app.sessions.source = SessionSource::Command("sway".to_string());

    let act = app.on_greetd_response(GreetdResponse::Success);
    match act {
        GreetdAction::StartSession(cmd, env) => {
            assert_eq!(cmd, vec!["sway".to_string()]);
            assert!(env.is_empty());
        }
        other => panic!("expected StartSession, got {other:?}"),
    }
    assert!(app.done);
    assert!(app.exit.is_none());

    let act = app.on_greetd_response(GreetdResponse::Success);
    match act {
        GreetdAction::Finish(ops) => {
            let mut store = Store::new();
            store.apply(&ops);
            assert_eq!(store.get("lastuser").map(|s| s.as_str()), Some("bob"));
        }
        other => panic!("expected Finish, got {other:?}"),
    }
    assert_eq!(app.exit, Some(AuthStatus::Success));
}

#[test]
fn errors_reset_and_cancel() {
    let mut app = App::default();
    app.auth.username = MaskedString::from("bob".to_string(), None);
    app.auth.mode = Mode::Password;
    app.auth.buffer = "wrong".to_string();
    app.working = true;
    let act = app.on_greetd_response(GreetdResponse::Error {
        error_kind: ErrorKind::AuthError,
        description: "pam said no".to_string(),
    });
    assert!(matches!(act, GreetdAction::Cancel));
    assert_eq!(app.ui.message.as_deref(), Some("Authentication failed"));
    assert_eq!(app.auth.mode, Mode::Username);
    assert_eq!(app.auth.username.value, "");
    assert_eq!(app.auth.buffer, "");
    assert!(!app.working);

    let act = app.on_greetd_response(GreetdResponse::Error {
        error_kind: ErrorKind::Error,
        description: "no such user".to_string(),
    });
    assert!(matches!(act, GreetdAction::Cancel));
    assert_eq!(app.ui.message.as_deref(), Some("no such user"));
    assert!(matches!(app.auth.secret_display, SecretDisplay::Hidden));
}

#[test]
fn session_commands_and_wrappers() {
    let mut app = App::default();
    app.sessions.menu.options = vec![
        session("sway", SessionType::Wayland, Some("sway"), Some("sway")),
        session("xfce4-session", SessionType::X11, None, None),
        session("bash", SessionType::Unspecified, None, None),
    ];
    app.sessions.session_wrapper = Some("env FOO=1".to_string());

    app.sessions.source = SessionSource::Session(0);
    let (cmd, env) = session_command(&app);
    assert_eq!(cmd, vec!["env FOO=1 sway".to_string()]);
    assert_eq!(
        env,
        vec![
            "XDG_SESSION_DESKTOP=sway".to_string(),
            "DESKTOP_SESSION=sway".to_string(),
            "XDG_SESSION_TYPE=wayland".to_string(),
            "XDG_CURRENT_DESKTOP=sway".to_string(),
        ]
    );

    app.sessions.source = SessionSource::Session(1);
    let (cmd, env) = session_command(&app);
    assert_eq!(cmd, vec!["startx /usr/bin/env xfce4-session".to_string()]);
    assert_eq!(env, vec!["XDG_SESSION_TYPE=x11".to_string()]);

    app.sessions.source = SessionSource::Session(2);
    let (cmd, env) = session_command(&app);
    assert_eq!(cmd, vec!["env FOO=1 bash".to_string()]);
    assert!(env.is_empty());

    app.sessions.source = SessionSource::DefaultCommand("niri".to_string(), Some(vec!["A=1".to_string()]));
    let (cmd, env) = session_command(&app);
    assert_eq!(cmd, vec!["env FOO=1 niri".to_string()]);
    assert_eq!(env, vec!["A=1".to_string()]);

    app.sessions.session_wrapper = None;
    app.sessions.source = SessionSource::Unset;
    let (cmd, env) = session_command(&app);
    assert_eq!(cmd, vec!["".to_string()]);
    assert!(env.is_empty());
}

#[test]
fn power_messages() {
    assert_eq!(exited_message("exit status: 1", ""), "Command exited with exit status: 1\n");
    assert_eq!(exited_message("exit status: 2", "oops"), "Command exited with exit status: 2\noops");
    assert_eq!(failed_message("not found"), "Command failed: not found");
}
