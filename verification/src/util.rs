use vstd::prelude::*;

use crate::state::{App, AuthState, Mode};
use crate::text::{char_count, push_str, string_from, trim, trim_chars, trim_end, trim_end_chars};
use ratatui::text::Text;
use ratatui::widgets::{Paragraph, Wrap};
use ansi_to_tui::IntoText;

verus! {

/// A rectangle of terminal cells.
#[derive(Debug, Clone, Copy, PartialEq, Eq, Structural)]
pub struct Rect {
    pub x: u16,
    pub y: u16,
    pub width: u16,
    pub height: u16,
}

/// The number of lines that a greeting takes when wrapped to the width:
/// the text read for ANSI escapes (or, when that fails, the raw text) and
/// wrapped without trimming.
pub uninterp spec fn greeting_line_count(text: Seq<char>, raw: Seq<char>, width: u16) -> usize;

/// The number of lines that a message takes when wrapped to the width,
/// trimming white space at line starts.
pub uninterp spec fn message_line_count(text: Seq<char>, width: u16) -> usize;

/// `ansi_to_tui::IntoText::into_text` on `text`, falling back to ratatui's
/// `Text::raw(raw)` when the text is not valid, then ratatui's
/// `Paragraph::new(..).wrap(Wrap { trim: false }).line_count(width)`.
/// The count is taken as a function of the arguments alone; what it is
/// (ratatui's word wrapping over ansi-to-tui's parse) is not stated.
#[verifier::external_body]
fn greeting_lines(text: &str, raw: &str, width: u16) -> (r: usize)
    ensures
        r == greeting_line_count(text@, raw@, width),
{
    let t: Text = match text.into_text() {
        Ok(t) => t,
        Err(_) => Text::raw(raw),
    };
    Paragraph::new(t).wrap(Wrap { trim: false }).line_count(width)
}

/// ratatui's `Paragraph::new(text).wrap(Wrap { trim: true }).line_count(width)`.
/// The count is taken as a function of the arguments alone; what it is
/// (ratatui's word wrapping) is not stated.
#[verifier::external_body]
fn message_lines(text: &str, width: u16) -> (r: usize)
    ensures
        r == message_line_count(text@, width),
{
    Paragraph::new(text).wrap(Wrap { trim: true }).line_count(width)
}

/// ` message `: the message with a space on each side.
pub fn titleize(message: &str) -> (r: String)
    ensures
        r@ == seq![' '] + message@ + seq![' '],
{
    let mut r = String::new();
    crate::text::push_char(&mut r, ' ');
    push_str(&mut r, message);
    crate::text::push_char(&mut r, ' ');
    assert(r@ =~= seq![' '] + message@ + seq![' ']);
    r
}

/// ` message`: the message after a space.
pub fn buttonize(message: &str) -> (r: String)
    ensures
        r@ == seq![' '] + message@,
{
    let mut r = String::new();
    crate::text::push_char(&mut r, ' ');
    push_str(&mut r, message);
    assert(r@ =~= seq![' '] + message@);
    r
}

/// Whether the cursor is hidden: while busy or done, while the user menu
/// waits for a pick, while a secret is awaited with no prompt, and on the
/// menus and other screens without text entry.
pub open spec fn hide_cursor_spec(app: App) -> bool {
    ||| app.working
    ||| app.done
    ||| (app.users.menu_enabled && app.auth.mode == Mode::Username
        && app.auth.username.value@.len() == 0)
    ||| (app.auth.mode == Mode::Password && app.auth.prompt is None)
    ||| app.auth.mode == Mode::Users
    ||| app.auth.mode == Mode::Sessions
    ||| app.auth.mode == Mode::Power
    ||| app.auth.mode == Mode::Processing
    ||| app.auth.mode == Mode::Action
}

/// Whether the cursor is hidden: while busy or done, and on screens
/// without a text field to type in.
pub fn should_hide_cursor(app: &App) -> (r: bool)
    ensures
        r == hide_cursor_spec(*app),
{
    let m = app.auth.mode;
    app.working || app.done || (app.users.menu_enabled && m == Mode::Username
        && app.auth.username.value.as_str().is_empty()) || (m == Mode::Password
        && app.auth.prompt.is_none()) || m == Mode::Users || m == Mode::Sessions || m == Mode::Power
        || m == Mode::Processing || m == Mode::Action
}

/// The height of a greeting that wraps to `lines` lines: one line more,
/// kept to 16 bits as a terminal size is.
pub fn greeting_height_for(lines: usize) -> (r: u16)
    ensures
        r == ((lines + 1) % 65536) as u16,
{
    (((lines % 65536) + 1) % 65536) as u16
}

/// The height of a message that wraps to `lines` lines (the count kept to
/// 16 bits, as a terminal size is), with the padding below it.
pub fn message_height_for(lines: usize, padding: u16) -> (r: u16)
    requires
        (lines % 65536) + padding <= u16::MAX,
    ensures
        r == (lines % 65536) + padding,
{
    let h = (lines % 65536) as u16;
    h + padding
}

/// The height of the greeting: its lines wrapped to the window less the
/// padding on both sides, plus one; `fallback` without a greeting.
pub open spec fn greeting_height_spec(app: App, padding: u16, fallback: u16) -> u16 {
    match app.ui.greeting {
        Some(g) => ((greeting_line_count(trim(g@), g@, (app.config.width - 2 * padding) as u16)
            + 1) % 65536) as u16,
        None => fallback,
    }
}

/// The height of the greeting box when the width is narrowed by `padding`
/// on each side.
pub fn get_greeting_height(app: &App, padding: u16, fallback: u16) -> (r: u16)
    requires
        app.ui.greeting is Some ==> 2 * padding <= app.config.width,
    ensures
        r == greeting_height_spec(*app, padding, fallback),
{
    match &app.ui.greeting {
        Some(g) => {
            let t = string_from(&trim_chars(g.as_str()));
            let lines = greeting_lines(t.as_str(), g.as_str(), app.config.width - 2 * padding);
            greeting_height_for(lines)
        },
        None => fallback,
    }
}

/// The height of the message (its wrapped lines, modulo 2^16, plus
/// `padding`, again modulo 2^16), or `fallback` without a message.
/// The number of lines of the message, kept to 16 bits.
pub open spec fn message_lines_spec(app: App) -> int {
    (message_line_count(trim_end(app.ui.message->0@), (app.config.width - 4) as u16) % 65536) as int
}

/// The message can be measured: there is room for its borders, and its
/// height with the padding fits in 16 bits.
pub open spec fn message_height_ok(app: App, padding: u16) -> bool {
    app.ui.message is Some ==> app.config.width >= 4 && message_lines_spec(app) + padding <= u16::MAX
}

/// The height of the message with its padding; `fallback` without one.
pub open spec fn message_height_spec(app: App, padding: u16, fallback: u16) -> u16 {
    match app.ui.message {
        Some(_) => (message_lines_spec(app) + padding) as u16,
        None => fallback,
    }
}

/// The height of the message under the prompt: its lines wrapped to the
/// window (less the borders), with the padding; `fallback` without a
/// message.
pub fn get_message_height(app: &App, padding: u16, fallback: u16) -> (r: u16)
    requires
        message_height_ok(*app, padding),
    ensures
        r == message_height_spec(*app, padding, fallback),
{
    match &app.ui.message {
        Some(msg) => {
            let t = string_from(&trim_end_chars(msg.as_str()));
            let lines = message_lines(t.as_str(), app.config.width - 4);
            message_height_for(lines, padding)
        },
        None => fallback,
    }
}

/// The height of the message, or `None` where it cannot be measured.
pub fn checked_message_height(app: &App, padding: u16, fallback: u16) -> (r: Option<u16>)
    ensures
        r == (if message_height_ok(*app, padding) {
            Some(message_height_spec(*app, padding, fallback))
        } else {
            None
        }),
{
    match &app.ui.message {
        Some(msg) => {
            if app.config.width < 4 {
                return None;
            }
            let t = string_from(&trim_end_chars(msg.as_str()));
            let lines = message_lines(t.as_str(), app.config.width - 4);
            if (lines % 65536) + (padding as usize) <= 65535 {
                Some(get_message_height(app, padding, fallback))
            } else {
                None
            }
        },
        None => Some(fallback),
    }
}

/// The height of the window's content before the greeting: the padding
/// and one line for a prompt, the prompt rows when a secret prompt is
/// shown, or one line per entry in a menu.
pub open spec fn initial_height(app: App, items: usize) -> int {
    let cp = app.config.container_padding as int;
    match app.auth.mode {
        Mode::Username | Mode::Action | Mode::Command => 2 * cp + 1,
        Mode::Password => match app.auth.prompt {
            Some(_) => 2 * cp + app.config.prompt_padding + 2,
            None => 2 * cp + 1,
        },
        _ => 2 * cp + (items % 65536),
    }
}

/// The height of the main window: popups other than the user menu leave
/// the greeting out.
pub open spec fn height_spec(app: App, items: usize, greeting_height: u16) -> int {
    match app.auth.mode {
        Mode::Command | Mode::Sessions | Mode::Power | Mode::Processing => initial_height(app, items),
        _ => initial_height(app, items) + greeting_height,
    }
}

/// The greeting height that the window size accounts for: the greeting
/// wrapped with a padding of one.
pub open spec fn window_greeting_height(app: App) -> u16 {
    greeting_height_spec(app, 1, 0)
}

/// The window can be measured: the greeting, if any, leaves room for its
/// padding, and the height fits in 16 bits.
pub open spec fn height_ok(app: App, items: usize) -> bool {
    &&& app.ui.greeting is Some ==> 2 <= app.config.width
    &&& height_spec(app, items, window_greeting_height(app)) <= u16::MAX
}

/// The height of the main window; `items` is the number of entries of a
/// menu.
pub fn get_height(app: &App, items: usize) -> (r: u16)
    requires
        height_ok(*app, items),
    ensures
        r == height_spec(*app, items, window_greeting_height(*app)),
{
    let greeting_height = get_greeting_height(app, 1, 0);
    let cp = app.config.container_padding;
    let pp = app.config.prompt_padding;
    let initial: u16 = match app.auth.mode {
        Mode::Username | Mode::Action | Mode::Command => 2 * cp + 1,
        Mode::Password => match app.auth.prompt {
            Some(_) => 2 * cp + pp + 2,
            None => 2 * cp + 1,
        },
        _ => 2 * cp + ((items % 65536) as u16),
    };
    match app.auth.mode {
        Mode::Command | Mode::Sessions | Mode::Power | Mode::Processing => initial,
        _ => initial + greeting_height,
    }
}

/// The height of the main window, or `None` where it cannot be measured
/// (the greeting leaves no room for its padding, or the height does not fit
/// in 16 bits).
pub fn checked_height(app: &App, items: usize) -> (r: Option<u16>)
    ensures
        r == (if height_ok(*app, items) {
            Some(height_spec(*app, items, window_greeting_height(*app)) as u16)
        } else {
            None
        }),
{
    if app.ui.greeting.is_some() && app.config.width < 2 {
        return None;
    }
    let greeting_height = get_greeting_height(app, 1, 0);
    let cp = app.config.container_padding as u32;
    let pp = app.config.prompt_padding as u32;
    let initial: u32 = match app.auth.mode {
        Mode::Username | Mode::Action | Mode::Command => 2 * cp + 1,
        Mode::Password => match app.auth.prompt {
            Some(_) => 2 * cp + pp + 2,
            None => 2 * cp + 1,
        },
        _ => 2 * cp + ((items % 65536) as u32),
    };
    let h: u32 = match app.auth.mode {
        Mode::Command | Mode::Sessions | Mode::Power | Mode::Processing => initial,
        _ => initial + greeting_height as u32,
    };
    if h <= 65535 {
        Some(get_height(app, items))
    } else {
        None
    }
}

/// Where a window of the given size goes in the area: centred, or at the
/// area's origin and clipped to it where it does not fit.
pub open spec fn rect_bounds_spec(width: u16, height: u16, area: Rect) -> (u16, u16, u16, u16) {
    let x: u16 = if width < area.width { ((area.width - width) / 2) as u16 } else { 0 };
    let y: u16 = if height < area.height { ((area.height - height) / 2) as u16 } else { 0 };
    let (x2, w2) = if x + width >= area.width { (0u16, area.width) } else { (x, width) };
    let (y2, h2) = if y + height >= area.height { (0u16, area.height) } else { (y, height) };
    (x2, y2, w2, h2)
}

/// The position and size of the main window in the area.
pub fn get_rect_bounds(app: &App, area: Rect, items: usize) -> (r: (u16, u16, u16, u16))
    requires
        height_ok(*app, items),
    ensures
        r == rect_bounds_spec(
            app.config.width,
            height_spec(*app, items, window_greeting_height(*app)) as u16,
            area,
        ),
{
    let width = app.config.width;
    let height = get_height(app, items);
    let x = if width < area.width {
        (area.width - width) / 2
    } else {
        0
    };
    let y = if height < area.height {
        (area.height - height) / 2
    } else {
        0
    };
    let (x, width) = if (x as u32) + (width as u32) >= area.width as u32 {
        (0, area.width)
    } else {
        (x, width)
    };
    let (y, height) = if (y as u32) + (height as u32) >= area.height as u32 {
        (0, area.height)
    } else {
        (y, height)
    };
    (x, y, width, height)
}

/// The position and size of the main window, or `None` where the window
/// cannot be measured.
pub fn checked_rect_bounds(app: &App, area: Rect, items: usize) -> (r: Option<(u16, u16, u16, u16)>)
    ensures
        r == (if height_ok(*app, items) {
            Some(
                rect_bounds_spec(
                    app.config.width,
                    height_spec(*app, items, window_greeting_height(*app)) as u16,
                    area,
                ),
            )
        } else {
            None
        }),
{
    match checked_height(app, items) {
        Some(_) => Some(get_rect_bounds(app, area, items)),
        None => None,
    }
}

/// The width left for a text entry after its label and the borders.
pub open spec fn input_width_spec(app: App, width: u16, label: Option<String>) -> int {
    let w = if app.config.width < width { app.config.width } else { width };
    let lw = match label {
        None => 0,
        Some(l) => l@.len() % 65536,
    };
    w - lw - 4 - 1
}

/// The width of a text entry.
pub fn get_input_width(app: &App, width: u16, label: &Option<String>) -> (r: u16)
    requires
        input_width_spec(*app, width, *label) >= 0,
    ensures
        r == input_width_spec(*app, width, *label),
{
    let w = if app.config.width < width {
        app.config.width
    } else {
        width
    };
    let lw: usize = match label {
        None => 0,
        Some(l) => char_count(l.as_str()),
    };
    w - ((lw % 65536) as u16) - 4 - 1
}

/// The cursor offset can be clamped without an overflow.
pub open spec fn clamp_safe(app: App, length: usize) -> bool {
    let n = (length as i16) as int;
    let sum = n + app.auth.cursor_offset;
    &&& i16::MIN <= sum <= i16::MAX
    &&& sum < 0 ==> n != i16::MIN
}

/// The cursor's position within a text of `length` characters, brought
/// within the text; the stored offset is corrected when it was outside.
pub fn clamp_cursor_offset(app: &mut App, length: usize) -> (r: i16)
    requires
        clamp_safe(*old(app), length),
    ensures
        ({
            let n = (length as i16) as int;
            let sum = n + old(app).auth.cursor_offset;
            let off1 = if sum < 0 { 0 } else { sum };
            let c1 = if sum < 0 { -n } else { old(app).auth.cursor_offset as int };
            &&& r == (if off1 > n { n } else { off1 })
            &&& *final(app) == (App {
                auth: AuthState {
                    cursor_offset: (if off1 > n { 0 } else { c1 }) as i16,
                    ..old(app).auth
                },
                ..*old(app)
            })
        }),
{
    let n = length as i16;
    let mut offset = n + app.auth.cursor_offset;
    if offset < 0 {
        offset = 0;
        app.auth.cursor_offset = -n;
    }
    if offset > n {
        offset = n;
        app.auth.cursor_offset = 0;
    }
    offset
}

/// The width of an input field, when the label and borders leave room.
pub fn checked_input_width(app: &App, width: u16, label: &Option<String>) -> (r: Option<u16>)
    ensures
        r == (if input_width_spec(*app, width, *label) >= 0 {
            Some(input_width_spec(*app, width, *label) as u16)
        } else {
            None
        }),
{
    let w = if app.config.width < width {
        app.config.width
    } else {
        width
    };
    let lw: usize = match label {
        None => 0,
        Some(l) => char_count(l.as_str()),
    };
    let lw16 = (lw % 65536) as u16;
    if (w as u32) >= (lw16 as u32) + 5 {
        Some(get_input_width(app, width, label))
    } else {
        None
    }
}

/// Whether the cursor offset can be clamped to a text of `length`
/// characters without leaving the 16-bit range.
pub fn can_clamp(app: &App, length: usize) -> (r: bool)
    ensures
        r == clamp_safe(*app, length),
{
    let n = (length as i16) as i32;
    let sum = n + app.auth.cursor_offset as i32;
    -32768 <= sum && sum <= 32767 && (sum >= 0 || n != -32768)
}

/// A 16-bit value, when `v` fits in 16 bits.
pub open spec fn fit(v: int) -> Option<u16> {
    if 0 <= v <= u16::MAX {
        Some(v as u16)
    } else {
        None
    }
}

/// The widths of the two parts of the status bar: the right part holds
/// the caps-lock notice (a space, the padding and the notice), the left
/// part the rest of the line within the padding. `None` where the line is
/// too narrow for them.
pub open spec fn status_widths_spec(width: u16, padding: u16, caps_len: usize) -> Option<(u16, u16)> {
    let right = 1 + padding + (caps_len as u16);
    let left = width - padding - right;
    if right <= u16::MAX && padding <= width && 0 <= left {
        Some((left as u16, right as u16))
    } else {
        None
    }
}

/// The widths of the left and right parts of the status bar.
pub fn status_widths(width: u16, padding: u16, caps_len: usize) -> (r: Option<(u16, u16)>)
    ensures
        r == status_widths_spec(width, padding, caps_len),
{
    let caps = caps_len as u16;
    let right = 1u32 + padding as u32 + caps as u32;
    if right > 65535 || padding > width || (right as u16) > width - padding {
        return None;
    }
    let right = right as u16;
    Some((width - padding - right, right))
}

/// Where the cursor goes on the prompt screen, one-based, given the
/// username row's area, the width of the username label and the cursor's
/// offset within the edited text: after the label on the username row, or
/// after the prompt on the answer row (at the start of the field while a
/// secret is typed unseen); `(1, 1)` elsewhere. `None` where a coordinate
/// does not fit in 16 bits.
pub open spec fn prompt_cursor_spec(app: App, area: Rect, label_len: usize, offset: i16) -> Option<(u16, u16)> {
    let off = (offset as u16) as int;
    match app.auth.mode {
        Mode::Username => match (fit(2 + area.x + (label_len as u16) + off), fit(1 + area.y)) {
            (Some(c), Some(r)) => Some((c, r)),
            _ => None,
        },
        Mode::Password => {
            let pw = (match app.auth.prompt {
                Some(p) => p@.len(),
                None => 0,
            } as u16) as int;
            let hidden = app.auth.asking_for_secret && app.auth.secret_display is Hidden;
            let col = 1 + area.x + pw + if hidden { 0 } else { off };
            match (fit(col), fit(3 + app.config.prompt_padding + area.y)) {
                (Some(c), Some(r)) => Some((c, (r - 1) as u16)),
                _ => None,
            }
        },
        _ => Some((1, 1)),
    }
}

/// Where the cursor goes on the prompt screen.
pub fn prompt_cursor(app: &App, area: Rect, label_len: usize, offset: i16) -> (r: Option<(u16, u16)>)
    ensures
        r == prompt_cursor_spec(*app, area, label_len, offset),
{
    let off = (offset as u16) as u32;
    match app.auth.mode {
        Mode::Username => {
            let c = 2 + area.x as u32 + (label_len as u16) as u32 + off;
            let r = 1 + area.y as u32;
            if c <= 65535 && r <= 65535 {
                Some((c as u16, r as u16))
            } else {
                None
            }
        },
        Mode::Password => {
            let pw = (app.prompt_width() as u16) as u32;
            let hidden = app.auth.asking_for_secret && !app.auth.secret_display.show();
            let c = 1 + area.x as u32 + pw + if hidden {
                0
            } else {
                off
            };
            let r = 3 + app.config.prompt_padding as u32 + area.y as u32;
            if c <= 65535 && r <= 65535 {
                Some((c as u16, (r - 1) as u16))
            } else {
                None
            }
        },
        _ => Some((1, 1)),
    }
}

/// Where the cursor goes in the command editor: after the label, at the
/// offset within the command, on the row below the field's area (the
/// coordinates are one-based).
pub open spec fn command_cursor_spec(area: Rect, label_len: usize, offset: i16) -> Option<(u16, u16)> {
    match (fit(2 + area.x + (label_len as u16) + (offset as u16)), fit(area.y + 1)) {
        (Some(c), Some(r)) => Some((c, r)),
        _ => None,
    }
}

/// Where the cursor goes in the command editor.
pub fn command_cursor(area: Rect, label_len: usize, offset: i16) -> (r: Option<(u16, u16)>)
    ensures
        r == command_cursor_spec(area, label_len, offset),
{
    let c = 2 + area.x as u32 + (label_len as u16) as u32 + (offset as u16) as u32;
    let r = area.y as u32 + 1;
    if c <= 65535 && r <= 65535 {
        Some((c as u16, r as u16))
    } else {
        None
    }
}

/// The terminal's zero-based cell for one-based coordinates; `None` for a
/// zero coordinate.
pub fn screen_cursor(pos: (u16, u16)) -> (r: Option<(u16, u16)>)
    ensures
        r == (if pos.0 >= 1 && pos.1 >= 1 {
            Some(((pos.0 - 1) as u16, (pos.1 - 1) as u16))
        } else {
            None
        }),
{
    if pos.0 >= 1 && pos.1 >= 1 {
        Some((pos.0 - 1, pos.1 - 1))
    } else {
        None
    }
}

/// The area inside a window, `padding` in from each side; `None` where
/// the window is too small for it or the area leaves 16 bits.
pub open spec fn inner_frame_spec(x: u16, y: u16, width: u16, height: u16, padding: u16) -> Option<Rect> {
    if x + padding <= u16::MAX && y + padding <= u16::MAX && 2 * padding <= width && 2 * padding <= height {
        Some(Rect {
            x: (x + padding) as u16,
            y: (y + padding) as u16,
            width: (width - 2 * padding) as u16,
            height: (height - 2 * padding) as u16,
        })
    } else {
        None
    }
}

/// The area inside a window, `padding` in from each side.
pub fn inner_frame(x: u16, y: u16, width: u16, height: u16, padding: u16) -> (r: Option<Rect>)
    ensures
        r == inner_frame_spec(x, y, width, height, padding),
{
    let p = padding as u32;
    if x as u32 + p <= 65535 && y as u32 + p <= 65535 && 2 * p <= width as u32 && 2 * p <= height as u32 {
        Some(Rect { x: x + padding, y: y + padding, width: width - 2 * padding, height: height - 2 * padding })
    } else {
        None
    }
}

/// The command editor's area: `padding` in from the top and left, and as
/// much less wide and high.
pub open spec fn command_frame_spec(x: u16, y: u16, width: u16, height: u16, padding: u16) -> Option<Rect> {
    if x + padding <= u16::MAX && y + padding <= u16::MAX && padding <= width && padding <= height {
        Some(Rect {
            x: (x + padding) as u16,
            y: (y + padding) as u16,
            width: (width - padding) as u16,
            height: (height - padding) as u16,
        })
    } else {
        None
    }
}

/// The command editor's area.
pub fn command_frame(x: u16, y: u16, width: u16, height: u16, padding: u16) -> (r: Option<Rect>)
    ensures
        r == command_frame_spec(x, y, width, height, padding),
{
    let p = padding as u32;
    if x as u32 + p <= 65535 && y as u32 + p <= 65535 && padding <= width && padding <= height {
        Some(Rect { x: x + padding, y: y + padding, width: width - padding, height: height - padding })
    } else {
        None
    }
}

/// The row of the menu entry at `index`: inside the border, below the
/// padding, two cells in from each side.
pub open spec fn menu_item_spec(x: u16, y: u16, width: u16, padding: u16, index: usize) -> Option<Rect> {
    let row = y + padding + (index as u16);
    if x + 2 <= u16::MAX && row <= u16::MAX && 4 <= width {
        Some(Rect { x: (x + 2) as u16, y: row as u16, width: (width - 4) as u16, height: 1 })
    } else {
        None
    }
}

/// The row of the menu entry at `index`.
pub fn menu_item(x: u16, y: u16, width: u16, padding: u16, index: usize) -> (r: Option<Rect>)
    ensures
        r == menu_item_spec(x, y, width, padding, index),
{
    let row = y as u32 + padding as u32 + (index as u16) as u32;
    if (x as u32) + 2 <= 65535 && row <= 65535 && 4 <= width {
        Some(Rect { x: x + 2, y: row as u16, width: width - 4, height: 1 })
    } else {
        None
    }
}

/// The waiting window: as wide as the settings ask and one line higher
/// than the window's height, centred in the area. `None` where it does not
/// fit in the area or its height cannot be measured.
pub open spec fn processing_bounds_spec(app: App, area: Rect) -> Option<(u16, u16, u16, u16)> {
    if height_ok(app, 0) {
        let h = height_spec(app, 0, window_greeting_height(app)) + 1;
        let w = app.config.width;
        if h <= u16::MAX && w <= area.width && h <= area.height {
            Some((((area.width - w) / 2) as u16, ((area.height - h) / 2) as u16, w, h as u16))
        } else {
            None
        }
    } else {
        None
    }
}

/// The waiting window's position and size.
pub fn processing_bounds(app: &App, area: Rect) -> (r: Option<(u16, u16, u16, u16)>)
    ensures
        r == processing_bounds_spec(*app, area),
{
    let h = match checked_height(app, 0) {
        Some(h) => h,
        None => return None,
    };
    let w = app.config.width;
    if h == 65535 || w > area.width || h + 1 > area.height {
        return None;
    }
    let h = h + 1;
    Some(((area.width - w) / 2, (area.height - h) / 2, w, h))
}

/// The position `gap` cells past `x` plus a text of `len` characters (as
/// a terminal counts, in 16 bits), when it fits in 16 bits.
pub fn after(x: u16, gap: u16, len: usize) -> (r: Option<u16>)
    ensures
        r == fit(gap + x + (len as u16)),
{
    let v = gap as u32 + x as u32 + (len as u16) as u32;
    if v <= 65535 {
        Some(v as u16)
    } else {
        None
    }
}

} // verus!
