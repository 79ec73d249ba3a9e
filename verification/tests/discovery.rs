use greetui::desktop::{session_dirs, session_from_desktop};
use greetui::sessions::SessionType;
use greetui::state::App;
use greetui::users::{uid_range, user_from_passwd};

#[test]
fn desktop_entry_read() {
    let content = "[Desktop Entry]\nName=Sway\nName[de]=Sway DE\nComment=An i3-compatible compositor\nExec=sway --unsupported-gpu\nType=Application\nDesktopNames=sway\n";
    let s = session_from_desktop(content, "/usr/share/wayland-sessions/sway.desktop", "sway", SessionType::Wayland).unwrap();
    assert_eq!(s.name, "Sway");
    assert_eq!(s.command, "sway --unsupported-gpu");
    assert_eq!(s.slug.as_deref(), Some("sway"));
    assert_eq!(s.path.as_deref(), Some("/usr/share/wayland-sessions/sway.desktop"));
    assert_eq!(s.xdg_desktop_names.as_deref(), Some("sway"));
    assert_eq!(s.session_type, SessionType::Wayland);

    let content = "[Desktop Entry]\nExec=startplasma\nName=Plasma\nExec=ignored\n";
    let s = session_from_desktop(content, "/x/plasma.desktop", "plasma", SessionType::X11).unwrap();
    assert_eq!(s.command, "startplasma");
    assert!(s.xdg_desktop_names.is_none());

    assert!(session_from_desktop("[Desktop Entry]\nName=NoExec\n", "/x", "x", SessionType::X11).is_none());
    assert!(session_from_desktop("Exec=a\nName\n", "/x", "x", SessionType::X11).is_none());
    assert!(session_from_desktop("", "/x", "x", SessionType::X11).is_none());
}

#[test]
fn session_directories() {
    let mut app = App::default();
    let dirs = session_dirs(&app);
    assert_eq!(dirs.len(), 2);
    assert_eq!(dirs[0].0, "/usr/share/wayland-sessions");
    assert_eq!(dirs[0].1, SessionType::Wayland);
    assert_eq!(dirs[1].0, "/usr/share/xsessions");
    assert_eq!(dirs[1].1, SessionType::X11);
    app.sessions.paths = vec![("/opt/sessions".to_string(), SessionType::X11)];
    let dirs = session_dirs(&app);
    assert_eq!(dirs.len(), 1);
    assert_eq!(dirs[0].0, "/opt/sessions");
}

#[test]
fn passwd_lines() {
    let u = user_from_passwd("alice:x:1000:1000:Alice Liddell,,,:/home/alice:/bin/bash", 1000, 60000).unwrap();
    assert_eq!(u.username, "alice");
    assert_eq!(u.name.as_deref(), Some("Alice Liddell"));
    let u = user_from_passwd("bob:x:1500:1500::/home/bob:/bin/sh", 1000, 60000).unwrap();
    assert_eq!(u.username, "bob");
    assert!(u.name.is_none());
    let u = user_from_passwd("carol:x:01001:100:,Room 5:/home/c:/bin/sh", 1000, 60000).unwrap();
    assert!(u.name.is_none());
    assert!(user_from_passwd("root:x:0:0:root:/root:/bin/bash", 1000, 60000).is_none());
    assert!(user_from_passwd("nobody:x:65534:65534:nobody:/:/sbin/nologin", 1000, 60000).is_none());
    assert!(user_from_passwd("weird:x:12a:1:W:/:/bin/sh", 0, 60000).is_none());
    assert!(user_from_passwd("huge:x:99999999999:1:H:/:/bin/sh", 0, 4294967295).is_none());
    assert!(user_from_passwd("short:x:1000", 0, 60000).is_none());
    assert!(user_from_passwd("", 0, 60000).is_none());
    assert!(user_from_passwd("edge:x:60000:1:E:/:/bin/sh", 1000, 60000).is_some());
}

#[test]
fn uid_ranges() {
    assert_eq!(uid_range(None, None), (1000, 60000));
    assert_eq!(uid_range(Some(500), Some(2000)), (500, 2000));
}

#[test]
fn session_files_filtered_and_sorted() {
    let names: Vec<String> = ["xfce.desktop", "README", "a.b.desktop", ".desktop", "gnome.desktop", "x.Desktop", "gnome.desktop"]
        .iter()
        .map(|s| s.to_string())
        .collect();
    let r = greetui::desktop::session_files(&names);
    let got: Vec<(&str, &str)> = r.iter().map(|(n, s)| (n.as_str(), s.as_str())).collect();
    assert_eq!(
        got,
        vec![
            ("a.b.desktop", "a.b"),
            ("gnome.desktop", "gnome"),
            ("gnome.desktop", "gnome"),
            ("xfce.desktop", "xfce"),
        ]
    );
    assert!(greetui::desktop::session_files(&Vec::new()).is_empty());
}
