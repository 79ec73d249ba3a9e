use greetui::keyboard::{handle, is_safe, KeyCode, KeyCommand, KeyEvent, CONTROL};
use greetui::masked::MaskedString;
use greetui::power::{Power, PowerOption};
use greetui::sessions::{Session, SessionSource, SessionType};
use greetui::state::{App, Mode};
use greetui::store::{FileOp, Store};

/// Handles a key as the caller does: only when the key is safe to handle.
fn press(app: &mut App, key: KeyEvent, store: &Store) -> (KeyCommand, Vec<FileOp>) {
    assert!(is_safe(app, key));
    handle(app, key, store)
}

fn key(code: KeyCode) -> KeyEvent {
    KeyEvent::new(code, 0)
}

fn session(name: &str, path: &str) -> Session {
    Session {
        slug: None,
        name: name.to_string(),
        command: name.to_string(),
        session_type: SessionType::Wayland,
        path: Some(path.to_string()),
        xdg_desktop_names: None,
    }
}

#[test]
fn ctrl_u() {
    let store = Store::new();
    let mut app = App::default();

    app.auth.mode = Mode::Username;
    app.auth.username = MaskedString::from("apognu".to_string(), None);
    let result = press(&mut app, KeyEvent::new(KeyCode::Char('u'), CONTROL), &store);
    assert!(matches!(result.0, KeyCommand::Nothing));
    assert_eq!(app.auth.username.value, "".to_string());

    app.auth.mode = Mode::Password;
    app.auth.buffer = "password".to_string();
    let result = press(&mut app, KeyEvent::new(KeyCode::Char('u'), CONTROL), &store);
    assert!(matches!(result.0, KeyCommand::Nothing));
    assert_eq!(app.auth.buffer, "".to_string());

    app.auth.mode = Mode::Command;
    app.auth.buffer = "newcommand".to_string();
    let result = press(&mut app, KeyEvent::new(KeyCode::Char('u'), CONTROL), &store);
    assert!(matches!(result.0, KeyCommand::Nothing));
    assert_eq!(app.auth.buffer, "".to_string());
}

#[test]
fn escape() {
    let store = Store::new();
    let mut app = App::default();

    app.auth.previous_mode = Mode::Username;
    app.auth.mode = Mode::Command;
    app.auth.previous_buffer = Some("apognu".to_string());
    app.auth.buffer = "newcommand".to_string();
    app.auth.cursor_offset = 2;

    let result = press(&mut app, key(KeyCode::Esc), &store);
    assert!(matches!(result.0, KeyCommand::Nothing));
    assert_eq!(app.auth.mode, Mode::Username);
    assert_eq!(app.auth.buffer, "apognu".to_string());
    assert!(matches!(app.auth.previous_buffer, None));
    assert_eq!(app.auth.cursor_offset, 0);

    for mode in [Mode::Users, Mode::Sessions, Mode::Power] {
        app.auth.previous_mode = Mode::Username;
        app.auth.mode = mode;
        let result = press(&mut app, key(KeyCode::Esc), &store);
        assert!(matches!(result.0, KeyCommand::Nothing));
        assert_eq!(app.auth.mode, Mode::Username);
    }
}

#[test]
fn left_right() {
    let store = Store::new();
    let mut app = App::default();

    let result = press(&mut app, key(KeyCode::Left), &store);
    assert!(matches!(result.0, KeyCommand::Nothing));
    assert_eq!(app.auth.cursor_offset, -1);

    let _ = press(&mut app, key(KeyCode::Right), &store);
    let result = press(&mut app, key(KeyCode::Right), &store);
    assert!(matches!(result.0, KeyCommand::Nothing));
    assert_eq!(app.auth.cursor_offset, 1);
}

#[test]
fn escape_on_prompt_cancels() {
    let store = Store::new();
    let mut app = App::default();
    app.auth.mode = Mode::Password;
    app.auth.previous_mode = Mode::Password;
    app.auth.username = MaskedString::from("bob".to_string(), Some("Bob".to_string()));
    app.auth.buffer = "hunter".to_string();
    app.set_prompt("Password:");
    app.working = false;
    app.done = true;
    let result = press(&mut app, key(KeyCode::Esc), &store);
    assert!(matches!(result.0, KeyCommand::Cancel));
    assert_eq!(app.auth.mode, Mode::Username);
    assert_eq!(app.auth.previous_mode, Mode::Username);
    assert_eq!(app.auth.username.value, "");
    assert!(app.auth.username.mask.is_none());
    assert_eq!(app.auth.buffer, "");
    assert!(app.auth.prompt.is_none());
    assert!(!app.done);
}

#[test]
fn typing_inserts_at_cursor() {
    let store = Store::new();
    let mut app = App::default();
    for c in "alce".chars() {
        let _ = press(&mut app, key(KeyCode::Char(c)), &store);
    }
    assert_eq!(app.auth.username.value, "alce");
    let _ = press(&mut app, key(KeyCode::Left), &store);
    let _ = press(&mut app, key(KeyCode::Left), &store);
    let _ = press(&mut app, key(KeyCode::Char('i')), &store);
    assert_eq!(app.auth.username.value, "alice");
    assert_eq!(app.auth.cursor_offset, -2);
}

#[test]
fn backspace_and_delete() {
    let store = Store::new();
    let mut app = App::default();
    app.auth.mode = Mode::Password;
    app.auth.buffer = "secret".to_string();

    let _ = press(&mut app, key(KeyCode::Backspace), &store);
    assert_eq!(app.auth.buffer, "secre");

    app.auth.cursor_offset = -5;
    let _ = press(&mut app, key(KeyCode::Delete), &store);
    assert_eq!(app.auth.buffer, "ecre");
    assert_eq!(app.auth.cursor_offset, -4);

    app.auth.cursor_offset = -4;
    let _ = press(&mut app, key(KeyCode::Backspace), &store);
    assert_eq!(app.auth.buffer, "ecre");
}

#[test]
fn ctrl_a_and_ctrl_e() {
    let store = Store::new();
    let mut app = App::default();
    app.auth.username = MaskedString::from("héllo".to_string(), None);
    let _ = press(&mut app, KeyEvent::new(KeyCode::Char('a'), CONTROL), &store);
    assert_eq!(app.auth.cursor_offset, -5);
    let _ = press(&mut app, KeyEvent::new(KeyCode::Char('e'), CONTROL), &store);
    assert_eq!(app.auth.cursor_offset, 0);
    let _ = press(&mut app, KeyEvent::new(KeyCode::Char('z'), CONTROL), &store);
    assert_eq!(app.auth.username.value, "héllo");
}

#[test]
fn enter_on_username_creates_session() {
    let store = Store::new();
    let mut app = App::default();
    app.auth.username = MaskedString::from("bob".to_string(), None);
    app.auth.buffer = "left over".to_string();
    let (cmd, ops) = press(&mut app, key(KeyCode::Enter), &store);
    match cmd {
        KeyCommand::CreateSession(u) => assert_eq!(u, "bob"),
        other => panic!("expected CreateSession, got {other:?}"),
    }
    assert!(ops.is_empty());
    assert!(app.working);
    assert_eq!(app.auth.buffer, "");
}

#[test]
fn enter_on_empty_username_does_nothing() {
    let store = Store::new();
    let mut app = App::default();
    let (cmd, _) = press(&mut app, key(KeyCode::Enter), &store);
    assert!(matches!(cmd, KeyCommand::Nothing));
    assert!(!app.working);
    assert_eq!(app.auth.mode, Mode::Username);
}

#[test]
fn enter_on_password_answers() {
    let store = Store::new();
    let mut app = App::default();
    app.auth.mode = Mode::Password;
    app.auth.buffer = "hunter2".to_string();
    app.ui.message = Some("Wrong".to_string());
    let (cmd, _) = press(&mut app, key(KeyCode::Enter), &store);
    match cmd {
        KeyCommand::AuthResponse(a) => assert_eq!(a, "hunter2"),
        other => panic!("expected AuthResponse, got {other:?}"),
    }
    assert!(app.working);
    assert!(app.ui.message.is_none());
    assert_eq!(app.auth.buffer, "");
}

#[test]
fn busy_greeter_ignores_keys() {
    let store = Store::new();
    let mut app = App::default();
    app.working = true;
    let (cmd, _) = press(&mut app, key(KeyCode::Char('x')), &store);
    assert!(matches!(cmd, KeyCommand::Nothing));
    assert_eq!(app.auth.username.value, "");
}

#[test]
fn command_menu_edits_and_saves_command() {
    let store = Store::new();
    let mut app = App::default();
    app.remember.session = true;
    app.auth.buffer = "typed".to_string();

    let _ = press(&mut app, key(KeyCode::F(2)), &store);
    assert_eq!(app.auth.mode, Mode::Command);
    assert_eq!(app.auth.previous_mode, Mode::Username);
    assert_eq!(app.auth.previous_buffer.as_deref(), Some("typed"));
    assert_eq!(app.auth.buffer, "");

    for c in "sway".chars() {
        let _ = press(&mut app, key(KeyCode::Char(c)), &store);
    }
    let (cmd, ops) = press(&mut app, key(KeyCode::Enter), &store);
    assert!(matches!(cmd, KeyCommand::Nothing));
    match &app.sessions.source {
        SessionSource::Command(c) => assert_eq!(c, "sway"),
        other => panic!("expected Command, got {other:?}"),
    }
    assert_eq!(app.auth.mode, Mode::Username);
    assert_eq!(app.auth.buffer, "typed");
    let mut saved = Store::new();
    saved.apply(&ops);
    assert_eq!(saved.get("lastsession").map(|s| s.as_str()), Some("sway"));
}

#[test]
fn session_menu_moves_and_selects() {
    let store = Store::new();
    let mut app = App::default();
    app.sessions.menu.options = vec![session("sway", "/s/sway.desktop"), session("gnome", "/s/gnome.desktop")];

    let _ = press(&mut app, key(KeyCode::F(3)), &store);
    assert_eq!(app.auth.mode, Mode::Sessions);
    let _ = press(&mut app, key(KeyCode::Up), &store);
    assert_eq!(app.sessions.menu.selected, 0);
    let _ = press(&mut app, key(KeyCode::Down), &store);
    let _ = press(&mut app, key(KeyCode::Down), &store);
    assert_eq!(app.sessions.menu.selected, 1);
    let _ = press(&mut app, key(KeyCode::Tab), &store);
    assert_eq!(app.sessions.menu.selected, 0);
    let _ = press(&mut app, key(KeyCode::BackTab), &store);
    assert_eq!(app.sessions.menu.selected, 1);

    let _ = press(&mut app, key(KeyCode::Enter), &store);
    assert!(matches!(app.sessions.source, SessionSource::Session(1)));
    assert_eq!(app.auth.mode, Mode::Username);
}

#[test]
fn power_menu_enter_runs_action() {
    let store = Store::new();
    let mut app = App::default();
    app.power.menu.options = vec![
        Power { action: PowerOption::Shutdown, label: "Shutdown".to_string(), command: None },
        Power { action: PowerOption::Reboot, label: "Reboot".to_string(), command: None },
    ];
    let _ = press(&mut app, key(KeyCode::F(12)), &store);
    assert_eq!(app.auth.mode, Mode::Power);
    let _ = press(&mut app, key(KeyCode::Down), &store);
    let (cmd, _) = press(&mut app, key(KeyCode::Enter), &store);
    assert!(matches!(cmd, KeyCommand::Power(PowerOption::Reboot)));
    assert_eq!(app.auth.mode, Mode::Username);
}

#[test]
fn direct_power_key() {
    let store = Store::new();
    let mut app = App::default();
    app.config.kb_suspend = Some(5);
    let (cmd, _) = press(&mut app, key(KeyCode::F(5)), &store);
    assert!(matches!(cmd, KeyCommand::Power(PowerOption::Suspend)));
}

#[test]
fn typing_then_backspace_gives_text_back() {
    let store = Store::new();
    let mut app = App::default();
    app.auth.username = MaskedString::from("alce".to_string(), None);
    app.auth.cursor_offset = -2;
    let _ = press(&mut app, key(KeyCode::Char('i')), &store);
    assert_eq!(app.auth.username.value, "alice");
    let _ = press(&mut app, key(KeyCode::Backspace), &store);
    assert_eq!(app.auth.username.value, "alce");
    assert_eq!(app.auth.cursor_offset, -2);
}

#[test]
fn command_menu_then_escape_gives_text_back() {
    let store = Store::new();
    let mut app = App::default();
    app.auth.mode = Mode::Password;
    app.auth.previous_mode = Mode::Password;
    app.auth.buffer = "half typed".to_string();
    app.sessions.source = SessionSource::Command("sway".to_string());

    let _ = press(&mut app, key(KeyCode::F(2)), &store);
    assert_eq!(app.auth.mode, Mode::Command);
    assert_eq!(app.auth.buffer, "sway");
    let _ = press(&mut app, key(KeyCode::Char('x')), &store);
    let (cmd, ops) = press(&mut app, key(KeyCode::Esc), &store);
    assert!(matches!(cmd, KeyCommand::Nothing));
    assert!(ops.is_empty());
    assert_eq!(app.auth.mode, Mode::Password);
    assert_eq!(app.auth.buffer, "half typed");
    assert!(app.auth.previous_buffer.is_none());
    assert_eq!(app.auth.cursor_offset, 0);
    match &app.sessions.source {
        SessionSource::Command(c) => assert_eq!(c, "sway"),
        other => panic!("expected Command, got {other:?}"),
    }
}
