use greetui::menu::MenuItem;
use greetui::util::{can_clamp, checked_height, checked_input_width, checked_message_height, checked_rect_bounds};
use greetui::secret::secret_shown;
use rand::rngs::StdRng;
use rand::{Rng, SeedableRng};
use greetui::masked::MaskedString;
use greetui::power::PowerOption;
use greetui::sessions::{Session, SessionSource, SessionType};
use greetui::state::{App, AuthStatus, Mode, SecretDisplay};
use greetui::store::Store;
use greetui::style::{Color, Component};
use greetui::users::User;
use greetui::util::{
    buttonize, clamp_cursor_offset, get_greeting_height, get_height, get_input_width, get_message_height,
    get_rect_bounds, greeting_height_for, message_height_for, should_hide_cursor, titleize, Rect,
};

#[test]
fn start_up_state_follows_settings() {
    let mut config = App::default().config;
    config.cmd = Some("sway".to_string());
    config.env = vec!["A=1".to_string()];
    config.sessions = Some("/w1:/w2".to_string());
    config.xsessions = Some("/x".to_string());
    config.asterisks = true;
    config.asterisks_char = "•".to_string();
    config.issue = true;
    config.time = true;
    config.remember = true;
    config.remember_user_session = true;
    config.power_shutdown = Some("poweroff".to_string());
    config.theme = Some("text=red".to_string());
    let app = App::new(config, "/run/greetd.sock".to_string(), Some("Welcome".to_string()), None);

    match &app.sessions.source {
        SessionSource::DefaultCommand(c, e) => {
            assert_eq!(c, "sway");
            assert_eq!(e.as_deref(), Some(&["A=1".to_string()][..]));
        }
        other => panic!("expected DefaultCommand, got {other:?}"),
    }
    let paths: Vec<(&str, SessionType)> = app.sessions.paths.iter().map(|(p, t)| (p.as_str(), *t)).collect();
    assert_eq!(paths, vec![("/w1", SessionType::Wayland), ("/w2", SessionType::Wayland), ("/x", SessionType::X11)]);
    assert!(matches!(&app.auth.secret_display, SecretDisplay::Character(c) if c == "•"));
    assert_eq!(app.ui.greeting.as_deref(), Some("Welcome"));
    assert!(app.ui.time);
    assert!(app.remember.username && app.remember.user_session && !app.remember.session);
    assert_eq!(app.power.menu.options.len(), 4);
    assert_eq!(app.power.menu.options[0].action, PowerOption::Shutdown);
    assert_eq!(app.power.menu.options[0].command.as_deref(), Some("poweroff"));
    assert_eq!(app.power.menu.options[3].command.as_deref(), Some("systemctl hibernate"));
    assert_eq!(app.theme.text, Some((Component::Fg, Color::Red)));
    assert_eq!(app.theme.time, Some((Component::Fg, Color::Red)));
    assert_eq!(app.sessions.xsession_wrapper.as_deref(), Some("startx /usr/bin/env"));
    assert_eq!(app.socket, "/run/greetd.sock");
    assert_eq!(app.auth.mode, Mode::Username);
}

#[test]
fn greeting_without_issue() {
    let mut config = App::default().config;
    config.greeting = Some("Hello".to_string());
    config.no_xsession_wrapper = true;
    let app = App::new(config, String::new(), Some("ignored".to_string()), Some("art".to_string()));
    assert_eq!(app.ui.greeting.as_deref(), Some("Hello"));
    assert_eq!(app.ui.ascii_art.as_deref(), Some("art"));
    assert!(app.sessions.xsession_wrapper.is_none());
    assert!(matches!(app.sessions.source, SessionSource::Unset));
    assert!(matches!(app.auth.secret_display, SecretDisplay::Hidden));
}

fn session(name: &str) -> Session {
    Session {
        slug: None,
        name: name.to_string(),
        command: name.to_string(),
        session_type: SessionType::X11,
        path: None,
        xdg_desktop_names: None,
    }
}

#[test]
fn loading_sessions_and_users() {
    let mut app = App::default();
    app.load_sessions(vec![session("a"), session("b")]);
    assert!(matches!(app.sessions.source, SessionSource::Session(0)));
    assert_eq!(app.sessions.menu.options.len(), 2);

    app.load_users(vec![User { username: "bob".to_string(), name: Some("Bob".to_string()) }]);
    assert!(!app.users.menu_enabled);
    assert_eq!(app.auth.username.value, "");

    app.config.user_menu = true;
    app.load_users(vec![User { username: "bob".to_string(), name: Some("Bob".to_string()) }]);
    assert!(app.users.menu_enabled);
    assert_eq!(app.auth.username.value, "bob");
    assert_eq!(app.auth.username.get(), "Bob");
}

#[test]
fn remembered_state_restored() {
    let mut app = App::default();
    app.ui.remember = true;
    app.ui.remember_session = true;
    app.load_sessions(vec![session("a"), session("b")]);
    let mut store = Store::new();
    store.set("lastuser".to_string(), "carol\n".to_string());
    store.set("lastsession".to_string(), "fish".to_string());
    app.restore_remembered(&store);
    assert_eq!(app.auth.username.value, "carol");
    match &app.sessions.source {
        SessionSource::Command(c) => assert_eq!(c, "fish"),
        other => panic!("expected Command, got {other:?}"),
    }

    let mut app = App::default();
    app.remember.username = true;
    app.restore_remembered(&store);
    assert_eq!(app.auth.username.value, "");
}

#[test]
fn scrub_and_reset() {
    let mut app = App::default();
    app.auth.username = MaskedString::from("dan".to_string(), Some("Dan".to_string()));
    app.auth.buffer = "secret".to_string();
    app.set_prompt("Password:");
    app.ui.message = Some("hi".to_string());

    app.scrub(false, true);
    assert_eq!(app.auth.buffer, "");
    assert!(app.auth.prompt.is_none());
    assert_eq!(app.auth.username.value, "dan");
    assert_eq!(app.ui.message.as_deref(), Some("hi"));

    app.working = true;
    app.auth.mode = Mode::Sessions;
    app.reset(true);
    assert_eq!(app.auth.mode, Mode::Password);
    assert_eq!(app.auth.previous_mode, Mode::Password);
    assert!(!app.working);
    assert_eq!(app.auth.username.value, "dan");

    app.reset(false);
    assert_eq!(app.auth.mode, Mode::Username);
    assert_eq!(app.auth.username.value, "");
    assert!(app.auth.username.mask.is_none());

    app.scrub(true, false);
    assert!(app.ui.message.is_none());
}

#[test]
fn prompts() {
    let mut app = App::default();
    assert_eq!(app.prompt_width(), 0);
    app.set_prompt("Password:");
    assert_eq!(app.auth.prompt.as_deref(), Some("Password: "));
    assert_eq!(app.prompt_width(), 10);
    app.set_prompt("Code: ");
    assert_eq!(app.auth.prompt.as_deref(), Some("Code: "));
    app.set_prompt("");
    assert_eq!(app.auth.prompt.as_deref(), Some(" "));
    app.set_prompt("Mot de passe é:");
    assert_eq!(app.prompt_width(), 16);
    app.remove_prompt();
    assert!(app.auth.prompt.is_none());
}

#[test]
fn finishing() {
    let mut app = App::default();
    assert!(!app.finish(AuthStatus::Success));
    assert_eq!(app.exit, Some(AuthStatus::Success));
    assert!(app.finish(AuthStatus::Cancel));
    assert!(app.finish(AuthStatus::Failure));
    assert_eq!(app.exit, Some(AuthStatus::Failure));
    assert_eq!(AuthStatus::Success.name(), "Success");
}

#[test]
fn secret_display() {
    assert!(!SecretDisplay::Hidden.show());
    assert!(SecretDisplay::Character("*".to_string()).show());
}

#[test]
fn titles_and_buttons() {
    assert_eq!(titleize("Sessions"), " Sessions ");
    assert_eq!(buttonize("F2 command"), " F2 command");
}

#[test]
fn cursor_hidden_when_no_input() {
    let mut app = App::default();
    assert!(!should_hide_cursor(&app));
    app.auth.mode = Mode::Password;
    assert!(should_hide_cursor(&app));
    app.set_prompt("Password:");
    assert!(!should_hide_cursor(&app));
    app.auth.mode = Mode::Sessions;
    assert!(should_hide_cursor(&app));
    app.auth.mode = Mode::Username;
    app.users.menu_enabled = true;
    assert!(should_hide_cursor(&app));
    app.auth.username = MaskedString::from("x".to_string(), None);
    assert!(!should_hide_cursor(&app));
    app.working = true;
    assert!(should_hide_cursor(&app));
}

#[test]
fn heights() {
    let mut app = App::default();
    assert_eq!(get_height(&app, 0), 2 + 1);
    app.ui.greeting = Some("Hello".to_string());
    assert_eq!(get_height(&app, 0), 2 + 1 + 2);
    app.auth.mode = Mode::Password;
    app.set_prompt("Password:");
    assert_eq!(get_height(&app, 0), 2 + 1 + 2 + 2);
    app.auth.mode = Mode::Sessions;
    assert_eq!(get_height(&app, 7), 2 + 7);
    app.auth.mode = Mode::Users;
    assert_eq!(get_height(&app, 7), 2 + 7 + 2);
    app.auth.mode = Mode::Command;
    assert_eq!(get_height(&app, 7), 3);

    assert_eq!(greeting_height_for(2), 3);
    assert_eq!(greeting_height_for(65535), 0);
    assert_eq!(message_height_for(3, 1), 4);
    assert_eq!(message_height_for(65536 + 2, 1), 3);
    assert_eq!(message_height_for(65534, 1), 65535);
}

#[test]
fn greeting_and_message_heights() {
    let mut app = App::default();
    assert_eq!(get_greeting_height(&app, 1, 0), 0);
    assert_eq!(get_message_height(&app, 2, 9), 9);

    app.config.width = 12;
    app.ui.greeting = Some("  hello  ".to_string());
    assert_eq!(get_greeting_height(&app, 1, 0), 2);
    app.ui.greeting = Some("hello world, how are you".to_string());
    assert_eq!(get_greeting_height(&app, 1, 0), 4);
    app.ui.greeting = Some("\x1b[31mred\x1b[0m".to_string());
    assert_eq!(get_greeting_height(&app, 1, 0), 2);

    app.ui.message = Some("short\n".to_string());
    assert_eq!(get_message_height(&app, 1, 0), 2);
    app.ui.message = Some("one two three four".to_string());
    assert_eq!(get_message_height(&app, 0, 0), 3);
    assert_eq!(checked_message_height(&app, 0, 0), Some(3));
    assert_eq!(checked_message_height(&app, 65535, 0), None);
    app.config.width = 3;
    assert_eq!(checked_message_height(&app, 0, 0), None);
    app.ui.message = None;
    assert_eq!(checked_message_height(&app, 0, 7), Some(7));
}

#[test]
fn rect_bounds() {
    let app = App::default();
    let area = Rect { x: 0, y: 0, width: 100, height: 40 };
    assert_eq!(get_rect_bounds(&app, area, 0), (10, 18, 80, 3));
    let small = Rect { x: 0, y: 0, width: 50, height: 2 };
    assert_eq!(get_rect_bounds(&app, small, 0), (0, 0, 50, 2));
    assert_eq!(checked_rect_bounds(&app, area, 0), Some((10, 18, 80, 3)));
}

#[test]
fn input_width() {
    let app = App::default();
    assert_eq!(get_input_width(&app, 100, &None), 75);
    assert_eq!(get_input_width(&app, 40, &Some("Username:".to_string())), 26);
}

#[test]
fn cursor_clamping() {
    let mut app = App::default();
    app.auth.cursor_offset = -10;
    assert_eq!(clamp_cursor_offset(&mut app, 4), 0);
    assert_eq!(app.auth.cursor_offset, -4);
    app.auth.cursor_offset = 3;
    assert_eq!(clamp_cursor_offset(&mut app, 4), 4);
    assert_eq!(app.auth.cursor_offset, 0);
    app.auth.cursor_offset = -1;
    assert_eq!(clamp_cursor_offset(&mut app, 4), 3);
    assert_eq!(app.auth.cursor_offset, -1);
}

#[test]
fn secret_display_text() {
    let mut app = App::default();
    app.auth.buffer = "hunter2".to_string();
    assert_eq!(secret_shown(&app.auth), "hunter2");

    app.auth.asking_for_secret = true;
    app.auth.secret_display = SecretDisplay::Character("*".to_string());
    assert_eq!(secret_shown(&app.auth), "*******");

    app.auth.secret_display = SecretDisplay::Hidden;
    assert_eq!(secret_shown(&app.auth), "hunter2");

    let pool = "ab#";
    app.auth.secret_display = SecretDisplay::Character(pool.to_string());
    let shown = secret_shown(&app.auth);
    let mut rng = StdRng::seed_from_u64(0);
    let expected: String = app
        .auth
        .buffer
        .chars()
        .map(|_| pool.chars().nth(rng.gen_range(0..pool.chars().count())).unwrap())
        .collect();
    assert_eq!(shown, expected);
    assert_eq!(shown.chars().count(), 7);
    assert!(shown.chars().all(|c| pool.contains(c)));

    app.auth.asking_for_secret = false;
    assert_eq!(secret_shown(&app.auth), "hunter2");
}

#[test]
fn menu_entries_text() {
    let u = User { username: "bob".to_string(), name: Some("Bob Smith".to_string()) };
    assert_eq!(u.format(), "Bob Smith (bob)");
    let u = User { username: "bob".to_string(), name: None };
    assert_eq!(u.format(), "bob");
    assert_eq!(session("sway").format(), "sway");
}

#[test]
fn checked_layout() {
    let mut app = App::default();
    assert_eq!(checked_height(&app, 0), Some(3));
    app.config.container_padding = 40000;
    assert_eq!(checked_height(&app, 0), None);
    app.config.container_padding = 1;
    app.ui.greeting = Some("Hi".to_string());
    app.config.width = 1;
    assert_eq!(checked_height(&app, 0), None);
    assert_eq!(checked_rect_bounds(&app, Rect { x: 0, y: 0, width: 10, height: 10 }, 0), None);
    app.config.width = 80;
    app.auth.mode = Mode::Sessions;
    assert_eq!(checked_height(&app, 10), Some(12));
    assert_eq!(checked_input_width(&app, 10, &Some("Username:".to_string())), None);
    assert_eq!(checked_input_width(&app, 14, &Some("Username:".to_string())), Some(0));
    assert_eq!(checked_input_width(&app, 100, &None), Some(75));
    app.auth.cursor_offset = 32767;
    assert!(!can_clamp(&app, 1));
    assert!(can_clamp(&app, 0));
    app.auth.cursor_offset = -3;
    assert!(can_clamp(&app, 2));
}

#[test]
fn remembered_user_starts_session() {
    let mut app = App::default();
    assert_eq!(app.initial_session(), None);
    app.auth.username = MaskedString::from("erin".to_string(), None);
    assert_eq!(app.initial_session(), None);
    assert!(!app.working);
    app.remember.username = true;
    assert_eq!(app.initial_session().as_deref(), Some("erin"));
    assert!(app.working);
}
