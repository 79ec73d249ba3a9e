use greetui::masked::MaskedString;
use greetui::menu::Menu;
use greetui::remember::Remember;
use greetui::sessions::{Session, SessionSource, SessionType};
use greetui::state::{App, AuthState, Mode, SecretDisplay, SessionState};
use greetui::store::{FileOp, Store};

/// A remembering store that stands for an empty data directory. With an
/// empty directory name, each path is the file's own name, which is how the
/// store keys its files.
fn temp_remember(username: bool, session: bool, user_session: bool) -> (Remember, Store) {
    let rm = Remember::new_with_dir(username, session, user_session, String::new());
    (rm, Store::new())
}

fn fake_auth() -> AuthState {
    AuthState {
        mode: Mode::Username,
        previous_mode: Mode::Username,
        cursor_offset: 0,
        previous_buffer: None,
        buffer: String::new(),
        username: MaskedString::from("alice".to_string(), None),
        prompt: None,
        asking_for_secret: false,
        secret_display: SecretDisplay::Hidden,
    }
}

fn fake_sessions() -> SessionState {
    SessionState {
        source: SessionSource::Unset,
        paths: Vec::new(),
        menu: Menu {
            title: "Sessions".into(),
            options: vec![
                Session {
                    slug: None,
                    name: "sway".into(),
                    command: "sway".into(),
                    session_type: SessionType::Wayland,
                    path: Some("/usr/share/wayland-sessions/sway.desktop".into()),
                    xdg_desktop_names: None,
                },
                Session {
                    slug: None,
                    name: "gnome".into(),
                    command: "gnome-session".into(),
                    session_type: SessionType::Wayland,
                    path: Some("/usr/share/wayland-sessions/gnome.desktop".into()),
                    xdg_desktop_names: None,
                },
            ],
            selected: 0,
        },
        session_wrapper: None,
        xsession_wrapper: None,
    }
}

fn source_of(sessions: &SessionState) -> SessionSource {
    match &sessions.source {
        SessionSource::Unset => SessionSource::Unset,
        SessionSource::DefaultCommand(c, e) => SessionSource::DefaultCommand(c.clone(), e.clone()),
        SessionSource::Command(c) => SessionSource::Command(c.clone()),
        SessionSource::Session(i) => SessionSource::Session(*i),
    }
}

/// An idle greeter holding the given prompt state and sessions.
fn dummy_with(auth: &AuthState, sessions: &SessionState) -> App {
    let mut app = App::default();
    app.auth.username = MaskedString::from(auth.username.value.clone(), auth.username.mask.clone());
    app.sessions.source = source_of(sessions);
    app.sessions.menu.options = fake_sessions().menu.options;
    app.sessions.menu.selected = sessions.menu.selected;
    app
}

// ── Username tests ──────────────────────────────────────────────────

#[test]
fn save_and_restore_username() {
    let (rm, mut store) = temp_remember(true, false, false);
    let mut auth = fake_auth();
    let mut sessions = fake_sessions();

    auth.username = MaskedString::from("bob".to_string(), Some("Bob Smith".to_string()));
    let mut ops: Vec<FileOp> = Vec::new();
    rm.write_username(&auth.username, &mut ops);
    store.apply(&ops);

    auth.username = MaskedString::from(String::new(), None);
    rm.restore(&store, &mut auth, &mut sessions);

    assert_eq!(auth.username.value, "bob");
    assert_eq!(auth.username.mask.as_deref(), Some("Bob Smith"));
}

#[test]
fn restore_username_disabled() {
    let (rm, mut store) = temp_remember(false, false, false);
    let mut auth = fake_auth();
    let mut sessions = fake_sessions();

    let mut ops: Vec<FileOp> = Vec::new();
    rm.write_username(&MaskedString::from("bob".to_string(), None), &mut ops);
    store.apply(&ops);
    auth.username = MaskedString::from("alice".to_string(), None);
    rm.restore(&store, &mut auth, &mut sessions);

    assert_eq!(auth.username.get(), "alice");
}

// ── Global session tests ────────────────────────────────────────────

#[test]
fn save_and_restore_global_command() {
    let (rm, mut store) = temp_remember(false, true, false);
    let mut auth = fake_auth();
    let mut sessions = fake_sessions();

    sessions.source = SessionSource::Command("tmux".to_string());
    store.apply(&rm.save_on_session_select(&dummy_with(&auth, &sessions)));

    sessions.source = SessionSource::Unset;
    rm.restore(&store, &mut auth, &mut sessions);

    match &sessions.source {
        SessionSource::Command(cmd) => assert_eq!(cmd, "tmux"),
        other => panic!("expected Command, got {other:?}"),
    }
}

#[test]
fn save_and_restore_global_session_path() {
    let (rm, mut store) = temp_remember(false, true, false);
    let mut auth = fake_auth();
    let mut sessions = fake_sessions();

    sessions.source = SessionSource::Session(1);
    store.apply(&rm.save_on_session_select(&dummy_with(&auth, &sessions)));

    sessions.source = SessionSource::Unset;
    sessions.menu.selected = 0;
    rm.restore(&store, &mut auth, &mut sessions);

    assert_eq!(sessions.menu.selected, 1);
    match &sessions.source {
        SessionSource::Session(i) => assert_eq!(*i, 1),
        other => panic!("expected Session, got {other:?}"),
    }
}

// ── Per-user session tests ──────────────────────────────────────────

#[test]
fn save_and_restore_user_command() {
    let (rm, mut store) = temp_remember(true, false, true);
    let mut auth = fake_auth();
    let mut sessions = fake_sessions();

    auth.username = MaskedString::from("alice".to_string(), None);
    sessions.source = SessionSource::Command("fish".to_string());
    store.apply(&rm.save_on_login(&dummy_with(&auth, &sessions)));

    sessions.source = SessionSource::Unset;
    rm.restore(&store, &mut auth, &mut sessions);

    match &sessions.source {
        SessionSource::Command(cmd) => assert_eq!(cmd, "fish"),
        other => panic!("expected Command, got {other:?}"),
    }
}

#[test]
fn user_command_overrides_session() {
    let (rm, mut store) = temp_remember(true, false, true);
    let mut auth = fake_auth();
    let mut sessions = fake_sessions();

    auth.username = MaskedString::from("alice".to_string(), None);

    sessions.source = SessionSource::Session(0);
    store.apply(&rm.save_on_login(&dummy_with(&auth, &sessions)));
    sessions.source = SessionSource::Command("fish".to_string());
    store.apply(&rm.save_on_login(&dummy_with(&auth, &sessions)));

    sessions.source = SessionSource::Unset;
    rm.restore(&store, &mut auth, &mut sessions);

    match &sessions.source {
        SessionSource::Command(cmd) => assert_eq!(cmd, "fish"),
        other => panic!("expected Command, got {other:?}"),
    }
}

// ── save_on_login replaces stale data ───────────────────────────────

#[test]
fn save_command_deletes_session_file() {
    let (rm, mut store) = temp_remember(true, false, true);
    let auth = fake_auth();
    let mut sessions = fake_sessions();

    sessions.source = SessionSource::Session(0);
    store.apply(&rm.save_on_login(&dummy_with(&auth, &sessions)));

    sessions.source = SessionSource::Command("bash".to_string());
    store.apply(&rm.save_on_login(&dummy_with(&auth, &sessions)));

    let session_file = rm.user_path("lastsession-path", auth.username.get());
    assert!(store.get(session_file.as_str()).is_none());
}

// ── Further cases ───────────────────────────────────────────────────

#[test]
fn session_file_saved_for_user_on_login() {
    let (rm, mut store) = temp_remember(true, false, true);
    let auth = fake_auth();
    let mut sessions = fake_sessions();

    sessions.source = SessionSource::Session(1);
    store.apply(&rm.save_on_login(&dummy_with(&auth, &sessions)));

    assert_eq!(
        store.get("lastsession-path-alice").map(|s| s.as_str()),
        Some("/usr/share/wayland-sessions/gnome.desktop")
    );
    assert_eq!(store.get("lastuser").map(|s| s.as_str()), Some("alice"));
    assert!(store.get("lastsession-alice").is_none());
}

#[test]
fn global_session_path_wins_over_command() {
    let (rm, mut store) = temp_remember(false, true, false);
    let mut auth = fake_auth();
    let mut sessions = fake_sessions();

    store.set("lastsession".to_string(), "tmux\n".to_string());
    store.set("lastsession-path".to_string(), "  /usr/share/wayland-sessions/gnome.desktop\n".to_string());
    rm.restore(&store, &mut auth, &mut sessions);

    assert_eq!(sessions.menu.selected, 1);
    assert!(matches!(sessions.source, SessionSource::Session(1)));
}

#[test]
fn unknown_session_path_keeps_command() {
    let (rm, mut store) = temp_remember(false, true, false);
    let mut auth = fake_auth();
    let mut sessions = fake_sessions();

    store.set("lastsession".to_string(), "tmux".to_string());
    store.set("lastsession-path".to_string(), "/nowhere.desktop".to_string());
    rm.restore(&store, &mut auth, &mut sessions);

    assert_eq!(sessions.menu.selected, 0);
    match &sessions.source {
        SessionSource::Command(cmd) => assert_eq!(cmd, "tmux"),
        other => panic!("expected Command, got {other:?}"),
    }
}

#[test]
fn blank_remembered_user_is_ignored() {
    let (rm, mut store) = temp_remember(true, false, false);
    let mut auth = fake_auth();
    let mut sessions = fake_sessions();

    store.set("lastuser".to_string(), "   \n".to_string());
    rm.restore(&store, &mut auth, &mut sessions);

    assert_eq!(auth.username.get(), "alice");
}

#[test]
fn shown_name_is_cleared_when_user_has_none() {
    let (rm, mut store) = temp_remember(true, false, false);
    let mut ops: Vec<FileOp> = Vec::new();
    rm.write_username(&MaskedString::from("bob".to_string(), Some("Bob".to_string())), &mut ops);
    store.apply(&ops);
    let mut ops: Vec<FileOp> = Vec::new();
    rm.write_username(&MaskedString::from("carol".to_string(), None), &mut ops);
    store.apply(&ops);

    assert_eq!(store.get("lastuser").map(|s| s.as_str()), Some("carol"));
    assert!(store.get("lastuser-name").is_none());
}

#[test]
fn paths_join_data_dir() {
    let rm = Remember::new_with_dir(true, true, true, "/var/lib/greetui".to_string());
    assert_eq!(rm.path("lastuser"), "/var/lib/greetui/lastuser");
    assert_eq!(rm.user_path("lastsession", "bob"), "/var/lib/greetui/lastsession-bob");
    let rm = Remember::new_with_dir(true, true, true, "/tmp/".to_string());
    assert_eq!(rm.path("lastuser"), "/tmp/lastuser");
    assert_eq!(rm.path("/etc/absolute"), "/etc/absolute");
}

#[test]
fn save_and_restore_user_session_path() {
    let (rm, mut store) = temp_remember(true, false, true);
    let mut auth = fake_auth();
    let mut sessions = fake_sessions();

    sessions.source = SessionSource::Session(1);
    store.apply(&rm.save_on_login(&dummy_with(&auth, &sessions)));

    sessions.source = SessionSource::Unset;
    sessions.menu.selected = 0;
    rm.restore(&store, &mut auth, &mut sessions);

    assert_eq!(auth.username.value, "alice");
    assert_eq!(sessions.menu.selected, 1);
    assert!(matches!(sessions.source, SessionSource::Session(1)));
}

#[test]
fn restoring_twice_changes_nothing_more() {
    let (rm, mut store) = temp_remember(true, true, false);
    let mut auth = fake_auth();
    let mut sessions = fake_sessions();
    store.set("lastuser".to_string(), "bob".to_string());
    store.set("lastsession".to_string(), "tmux".to_string());
    store.set("lastsession-path".to_string(), "/usr/share/wayland-sessions/gnome.desktop".to_string());

    rm.restore(&store, &mut auth, &mut sessions);
    assert_eq!(auth.username.value, "bob");
    assert!(matches!(sessions.source, SessionSource::Session(1)));
    assert_eq!(sessions.menu.selected, 1);

    rm.restore(&store, &mut auth, &mut sessions);
    assert_eq!(auth.username.value, "bob");
    assert!(matches!(sessions.source, SessionSource::Session(1)));
    assert_eq!(sessions.menu.selected, 1);
}

#[test]
fn user_with_display_name_gets_session_back() {
    let (rm, mut store) = temp_remember(true, false, true);
    let mut auth = fake_auth();
    let mut sessions = fake_sessions();

    auth.username = MaskedString::from("alice".to_string(), Some("Alice Liddell".to_string()));
    sessions.source = SessionSource::Session(1);
    store.apply(&rm.save_on_login(&dummy_with(&auth, &sessions)));

    sessions.source = SessionSource::Unset;
    sessions.menu.selected = 0;
    rm.restore_user_session(&store, &mut auth, &mut sessions);
    assert!(matches!(sessions.source, SessionSource::Session(1)));
    assert_eq!(sessions.menu.selected, 1);

    sessions.source = SessionSource::Unset;
    sessions.menu.selected = 0;
    auth.username = MaskedString::from(String::new(), None);
    rm.restore(&store, &mut auth, &mut sessions);
    assert_eq!(auth.username.get(), "Alice Liddell");
    assert!(matches!(sessions.source, SessionSource::Session(1)));
}
