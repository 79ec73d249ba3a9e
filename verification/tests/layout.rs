use greetui::state::{App, Mode, SecretDisplay};
use greetui::util::{
    after, command_cursor, command_frame, inner_frame, menu_item, processing_bounds, prompt_cursor, screen_cursor,
    status_widths, Rect,
};

fn r(x: u16, y: u16, width: u16, height: u16) -> Rect {
    Rect { x, y, width, height }
}

#[test]
fn status_bar_widths() {
    assert_eq!(status_widths(100, 0, 9), Some((90, 10)));
    assert_eq!(status_widths(100, 2, 9), Some((86, 12)));
    assert_eq!(status_widths(10, 2, 9), None);
    assert_eq!(status_widths(1, 2, 0), None);
}

#[test]
fn prompt_cursors() {
    let mut app = App::default();
    let area = r(10, 5, 60, 1);
    assert_eq!(prompt_cursor(&app, area, 9, 3), Some((24, 6)));
    app.auth.mode = Mode::Password;
    app.set_prompt("Password:");
    assert_eq!(prompt_cursor(&app, area, 9, 4), Some((25, 8)));
    app.auth.asking_for_secret = true;
    assert_eq!(prompt_cursor(&app, area, 9, 4), Some((21, 8)));
    app.auth.secret_display = SecretDisplay::Character("*".to_string());
    assert_eq!(prompt_cursor(&app, area, 9, 4), Some((25, 8)));
    app.auth.mode = Mode::Sessions;
    assert_eq!(prompt_cursor(&app, area, 9, 4), Some((1, 1)));
    app.auth.mode = Mode::Username;
    assert_eq!(prompt_cursor(&app, r(65530, 0, 1, 1), 9, 0), None);
}

#[test]
fn command_and_screen_cursors() {
    assert_eq!(command_cursor(r(3, 4, 50, 1), 12, 2), Some((19, 5)));
    assert_eq!(command_cursor(r(3, 65535, 50, 1), 12, 2), None);
    assert_eq!(screen_cursor((5, 7)), Some((4, 6)));
    assert_eq!(screen_cursor((0, 7)), None);
}

#[test]
fn frames_and_rows() {
    assert_eq!(inner_frame(10, 5, 80, 10, 1), Some(r(11, 6, 78, 8)));
    assert_eq!(inner_frame(10, 5, 80, 1, 1), None);
    assert_eq!(command_frame(10, 5, 80, 10, 1), Some(r(11, 6, 79, 9)));
    assert_eq!(command_frame(10, 5, 0, 10, 1), None);
    assert_eq!(menu_item(10, 5, 80, 1, 2), Some(r(12, 8, 76, 1)));
    assert_eq!(menu_item(10, 5, 3, 1, 2), None);
    assert_eq!(after(10, 1, 9), Some(20));
    assert_eq!(after(65535, 1, 0), None);
}

#[test]
fn waiting_window() {
    let mut app = App::default();
    app.auth.mode = Mode::Processing;
    assert_eq!(processing_bounds(&app, r(0, 0, 100, 40)), Some((10, 18, 80, 3)));
    assert_eq!(processing_bounds(&app, r(0, 0, 50, 40)), None);
    assert_eq!(processing_bounds(&app, r(0, 0, 100, 2)), None);
}
