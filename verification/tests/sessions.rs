use greetui::numlock::{numlock_leds, LED_NUM};
use greetui::paths::same_path;
use greetui::power::{power, Power, PowerOption, PowerPostAction};
use greetui::sessions::{position_of, Session, SessionSource, SessionType};
use greetui::state::{App, Mode, PowerState};
use greetui::menu::Menu;
use greetui::vt::{VtController, VtEvent, VtWork};

fn session(name: &str, command: &str, path: &str) -> Session {
    Session {
        slug: None,
        name: name.to_string(),
        command: command.to_string(),
        session_type: SessionType::Wayland,
        path: Some(path.to_string()),
        xdg_desktop_names: None,
    }
}

fn app_with_sessions() -> App {
    let mut app = App::default();
    app.sessions.menu.options = vec![
        session("Sway", "sway", "/usr/share/wayland-sessions/sway.desktop"),
        session("GNOME", "gnome-session", "/usr/share/wayland-sessions/gnome.desktop"),
    ];
    app
}

#[test]
fn source_label_and_command() {
    let app = app_with_sessions();
    let s = SessionSource::Session(1);
    assert_eq!(s.label(&app), Some("GNOME"));
    assert_eq!(s.command(&app), Some("gnome-session"));
    let s = SessionSource::Session(5);
    assert_eq!(s.label(&app), None);
    assert_eq!(s.command(&app), None);
    let s = SessionSource::Command("tmux".to_string());
    assert_eq!(s.label(&app), Some("tmux"));
    assert_eq!(s.command(&app), Some("tmux"));
    assert_eq!(SessionSource::Unset.label(&app), None);
}

#[test]
fn source_env() {
    let s = SessionSource::DefaultCommand("sway".to_string(), Some(vec!["A=1".to_string()]));
    assert_eq!(s.env(), Some(vec!["A=1".to_string()]));
    let s = SessionSource::DefaultCommand("sway".to_string(), None);
    assert_eq!(s.env(), None);
    assert_eq!(SessionSource::Command("x".to_string()).env(), None);
}

#[test]
fn xdg_session_types() {
    assert_eq!(SessionType::X11.as_xdg_session_type(), "x11");
    assert_eq!(SessionType::Wayland.as_xdg_session_type(), "wayland");
    assert_eq!(SessionType::Tty.as_xdg_session_type(), "tty");
    assert_eq!(SessionType::Unspecified.as_xdg_session_type(), "unspecified");
}

#[test]
fn sessions_found_by_path() {
    let mut app = app_with_sessions();
    assert_eq!(position_of(&app.sessions.menu.options, "/usr/share/wayland-sessions/gnome.desktop"), Some(1));
    assert_eq!(position_of(&app.sessions.menu.options, "/usr/share//wayland-sessions/./gnome.desktop"), Some(1));
    assert_eq!(position_of(&app.sessions.menu.options, "/usr/share/wayland-sessions/kde.desktop"), None);
    assert_eq!(
        Session::from_path(&app, "/usr/share/wayland-sessions/sway.desktop").map(|s| s.name.as_str()),
        Some("Sway")
    );
    assert!(Session::get_selected(&app).is_none());
    app.sessions.source = SessionSource::Session(0);
    assert_eq!(Session::get_selected(&app).map(|s| s.command.as_str()), Some("sway"));
}

#[test]
fn path_comparison_by_components() {
    assert!(same_path("/a/b", "/a/b"));
    assert!(same_path("/a//b/", "/a/b"));
    assert!(same_path("/a/./b", "/a/b"));
    assert!(same_path("a/b", "./a/b") == false);
    assert!(!same_path("/a/b", "a/b"));
    assert!(!same_path("/a/../b", "/b"));
    assert!(same_path("./a", "./a/"));
}

fn power_state(setsid: bool, shutdown: Option<&str>) -> App {
    let mut app = App::default();
    app.power = PowerState {
        menu: Menu {
            title: "Power".to_string(),
            options: vec![
                Power { action: PowerOption::Shutdown, label: "Shutdown".to_string(), command: shutdown.map(|s| s.to_string()) },
                Power { action: PowerOption::Suspend, label: "Suspend".to_string(), command: Some("systemctl suspend".to_string()) },
            ],
            selected: 0,
        },
        setsid,
    };
    app
}

#[test]
fn power_commands() {
    let c = power(&power_state(true, None), PowerOption::Shutdown);
    assert_eq!(c.program, "shutdown");
    assert_eq!(c.args, vec!["-h".to_string(), "now".to_string()]);

    let c = power(&power_state(true, None), PowerOption::Reboot);
    assert_eq!(c.program, "shutdown");
    assert_eq!(c.args, vec!["-r".to_string(), "now".to_string()]);

    let c = power(&power_state(true, None), PowerOption::Suspend);
    assert_eq!(c.program, "setsid");
    assert_eq!(c.args, vec!["systemctl".to_string(), "suspend".to_string()]);

    let c = power(&power_state(false, Some("poweroff  -f")), PowerOption::Shutdown);
    assert_eq!(c.program, "poweroff");
    assert_eq!(c.args, vec!["".to_string(), "-f".to_string()]);

    let c = power(&power_state(false, None), PowerOption::Hibernate);
    assert_eq!(c.program, "systemctl");
    assert_eq!(c.args, vec!["hibernate".to_string()]);
}

#[test]
fn power_progress() {
    let mut app = App::default();
    app.auth.mode = Mode::Power;
    app.auth.previous_mode = Mode::Password;
    app.power_started();
    assert_eq!(app.auth.mode, Mode::Processing);
    assert_eq!(app.power_finished(Some("failed".to_string())), PowerPostAction::Noop);
    assert_eq!(app.auth.mode, Mode::Password);
    assert_eq!(app.ui.message.as_deref(), Some("failed"));
    app.power_started();
    assert_eq!(app.power_finished(None), PowerPostAction::ClearScreen);
    assert_eq!(app.auth.mode, Mode::Processing);
}

#[test]
fn numlock_bits() {
    assert_eq!(numlock_leds(0, true), LED_NUM);
    assert_eq!(numlock_leds(0b101, true), 0b111);
    assert_eq!(numlock_leds(0b111, false), 0b101);
    assert_eq!(numlock_leds(0b100, false), 0b100);
}

fn run_switch(vt: &mut VtController, preferred: Option<u32>, no_switch: bool, current: Option<u32>, idle: Option<u32>, works: bool) -> Option<u32> {
    let mut work = vt.init(VtEvent::Begin { no_vt_switch: no_switch });
    loop {
        work = match work {
            VtWork::ReadCurrent => vt.init(VtEvent::Current { current_vt: current, preferred_vt: preferred }),
            VtWork::FindIdle => vt.init(VtEvent::Idle { idle_vt: idle }),
            VtWork::SwitchTo(n) => vt.init(VtEvent::Switched { vt: n, ok: works }),
            VtWork::Done(r) => return r,
        }
    }
}

#[test]
fn vt_switching() {
    let mut vt = VtController::new();
    assert_eq!(run_switch(&mut vt, None, true, Some(1), Some(7), true), None);
    assert_eq!(vt, VtController::new());
    assert_eq!(vt.restore(), None);

    let mut vt = VtController::new();
    assert_eq!(run_switch(&mut vt, None, false, Some(1), Some(7), true), Some(7));
    assert_eq!(vt.original_vt, Some(1));
    assert_eq!(vt.active_vt, Some(7));
    assert_eq!(vt.restore(), Some(1));

    let mut vt = VtController::new();
    assert_eq!(run_switch(&mut vt, Some(3), false, Some(3), Some(7), true), Some(3));
    assert_eq!(vt.restore(), None);

    let mut vt = VtController::new();
    assert_eq!(run_switch(&mut vt, Some(2), false, Some(1), None, false), None);
    assert_eq!(vt.active_vt, None);
    assert_eq!(vt.restore(), None);

    let mut vt = VtController::new();
    assert_eq!(run_switch(&mut vt, None, false, None, None, true), None);
}
