use vstd::prelude::*;
use crate::text::clone_opt;

use crate::masked::MaskedString;
use crate::menu::Menu;
use crate::power::PowerOption;
use crate::remember::{after_user_session, select_ops};
use crate::sessions::{source_command, SessionSource};
use crate::state::{reset_from, App, AuthState, Mode, PowerState, SessionState, UiState, UserState};
use crate::store::{op_views, FileOp, FileOpView, Store};
use crate::text::{chars_of, string_from};

verus! {

/// A key, as the terminal reports it.
#[derive(Debug, Clone, Copy, PartialEq, Eq, Structural)]
pub enum KeyCode {
    Backspace,
    Enter,
    Left,
    Right,
    Up,
    Down,
    Home,
    End,
    PageUp,
    PageDown,
    Tab,
    BackTab,
    Delete,
    Insert,
    F(u8),
    Char(char),
    Null,
    Esc,
    /// Any other key.
    Other,
}

/// The Shift modifier bit.
pub const SHIFT: u8 = 0b0000_0001;

/// The Control modifier bit.
pub const CONTROL: u8 = 0b0000_0010;

/// The Alt modifier bit.
pub const ALT: u8 = 0b0000_0100;

/// A key press: the key and the modifier bits held with it.
#[derive(Debug, Clone, Copy, PartialEq, Eq, Structural)]
pub struct KeyEvent {
    pub code: KeyCode,
    pub modifiers: u8,
}

impl KeyEvent {
    pub fn new(code: KeyCode, modifiers: u8) -> (r: KeyEvent)
        ensures
            r.code == code,
            r.modifiers == modifiers,
    {
        KeyEvent { code, modifiers }
    }
}

/// What the caller has to do after a key press.
#[derive(Debug)]
pub enum KeyCommand {
    /// Nothing more.
    Nothing,
    /// Run the power action.
    Power(PowerOption),
    /// Cancel the greetd session and connect anew; the greeter is already
    /// back on its first screen.
    Cancel,
    /// Ask greetd to create a session for this user.
    CreateSession(String),
    /// Answer greetd's authentication question with this text.
    AuthResponse(String),
}

pub enum KeyCommandView {
    Nothing,
    Power(PowerOption),
    Cancel,
    CreateSession(Seq<char>),
    AuthResponse(Seq<char>),
}

impl View for KeyCommand {
    type V = KeyCommandView;

    open spec fn view(&self) -> KeyCommandView {
        match self {
            KeyCommand::Nothing => KeyCommandView::Nothing,
            KeyCommand::Power(p) => KeyCommandView::Power(*p),
            KeyCommand::Cancel => KeyCommandView::Cancel,
            KeyCommand::CreateSession(u) => KeyCommandView::CreateSession(u@),
            KeyCommand::AuthResponse(a) => KeyCommandView::AuthResponse(a@),
        }
    }
}

/// Which binding a key press falls under.
#[derive(Debug, Clone, Copy, PartialEq, Eq, Structural)]
pub enum Arm {
    /// The greeter is busy; keys are ignored.
    Busy,
    DirectPower(PowerOption),
    ClearInput,
    Escape,
    Left,
    Right,
    CommandMenu,
    SessionsMenu,
    PowerMenu,
    Up,
    Down,
    LineStart,
    LineEnd,
    Tab,
    BackTab,
    Enter,
    Insert(char),
    Backspace,
    Delete,
    Ignored,
}

pub open spec fn is_ctrl(k: KeyEvent) -> bool {
    k.modifiers == CONTROL
}

pub open spec fn is_fkey(k: KeyEvent, n: Option<u8>) -> bool {
    k.code is F && n == Some(k.code->F_0)
}

/// The binding that a key press falls under, checked in order: the direct
/// power keys first, then the editing and menu keys.
pub open spec fn arm_of(app: App, k: KeyEvent) -> Arm {
    let c = app.config;
    if app.working {
        Arm::Busy
    } else if is_fkey(k, c.kb_shutdown) {
        Arm::DirectPower(PowerOption::Shutdown)
    } else if is_fkey(k, c.kb_reboot) {
        Arm::DirectPower(PowerOption::Reboot)
    } else if is_fkey(k, c.kb_suspend) {
        Arm::DirectPower(PowerOption::Suspend)
    } else if is_fkey(k, c.kb_hibernate) {
        Arm::DirectPower(PowerOption::Hibernate)
    } else if k.code == KeyCode::Char('u') && is_ctrl(k) {
        Arm::ClearInput
    } else if k.code == KeyCode::Esc {
        Arm::Escape
    } else if k.code == KeyCode::Left {
        Arm::Left
    } else if k.code == KeyCode::Right {
        Arm::Right
    } else if is_fkey(k, Some(c.kb_command)) {
        Arm::CommandMenu
    } else if is_fkey(k, Some(c.kb_sessions)) {
        Arm::SessionsMenu
    } else if is_fkey(k, Some(c.kb_power)) {
        Arm::PowerMenu
    } else if k.code == KeyCode::Up {
        Arm::Up
    } else if k.code == KeyCode::Down {
        Arm::Down
    } else if k.code == KeyCode::Char('a') && is_ctrl(k) {
        Arm::LineStart
    } else if k.code == KeyCode::Char('e') && is_ctrl(k) {
        Arm::LineEnd
    } else if k.code == KeyCode::Tab {
        Arm::Tab
    } else if k.code == KeyCode::BackTab {
        Arm::BackTab
    } else if k.code == KeyCode::Enter {
        Arm::Enter
    } else if is_ctrl(k) {
        Arm::Ignored
    } else if k.code is Char {
        Arm::Insert(k.code->Char_0)
    } else if k.code == KeyCode::Backspace {
        Arm::Backspace
    } else if k.code == KeyCode::Delete {
        Arm::Delete
    } else {
        Arm::Ignored
    }
}

fn fkey_is(k: KeyEvent, n: Option<u8>) -> (r: bool)
    ensures
        r == is_fkey(k, n),
{
    match (k.code, n) {
        (KeyCode::F(i), Some(j)) => i == j,
        _ => false,
    }
}

/// The binding that a key press falls under.
pub fn arm(app: &App, k: KeyEvent) -> (r: Arm)
    ensures
        r == arm_of(*app, k),
{
    let c = &app.config;
    let ctrl = k.modifiers == CONTROL;
    if app.working {
        Arm::Busy
    } else if fkey_is(k, c.kb_shutdown) {
        Arm::DirectPower(PowerOption::Shutdown)
    } else if fkey_is(k, c.kb_reboot) {
        Arm::DirectPower(PowerOption::Reboot)
    } else if fkey_is(k, c.kb_suspend) {
        Arm::DirectPower(PowerOption::Suspend)
    } else if fkey_is(k, c.kb_hibernate) {
        Arm::DirectPower(PowerOption::Hibernate)
    } else if k.code == KeyCode::Char('u') && ctrl {
        Arm::ClearInput
    } else if k.code == KeyCode::Esc {
        Arm::Escape
    } else if k.code == KeyCode::Left {
        Arm::Left
    } else if k.code == KeyCode::Right {
        Arm::Right
    } else if fkey_is(k, Some(c.kb_command)) {
        Arm::CommandMenu
    } else if fkey_is(k, Some(c.kb_sessions)) {
        Arm::SessionsMenu
    } else if fkey_is(k, Some(c.kb_power)) {
        Arm::PowerMenu
    } else if k.code == KeyCode::Up {
        Arm::Up
    } else if k.code == KeyCode::Down {
        Arm::Down
    } else if k.code == KeyCode::Char('a') && ctrl {
        Arm::LineStart
    } else if k.code == KeyCode::Char('e') && ctrl {
        Arm::LineEnd
    } else if k.code == KeyCode::Tab {
        Arm::Tab
    } else if k.code == KeyCode::BackTab {
        Arm::BackTab
    } else if k.code == KeyCode::Enter {
        Arm::Enter
    } else if ctrl {
        Arm::Ignored
    } else {
        match k.code {
            KeyCode::Char(ch) => Arm::Insert(ch),
            KeyCode::Backspace => Arm::Backspace,
            KeyCode::Delete => Arm::Delete,
            _ => Arm::Ignored,
        }
    }
}

// ---------------------------------------------------------------------------
// Specification of the effects
// ---------------------------------------------------------------------------

/// The mode remembered when a popup opens: a popup opened from another
/// popup keeps the mode remembered before.
pub open spec fn menu_prev(mode: Mode, prev: Mode) -> Mode {
    match mode {
        Mode::Users | Mode::Command | Mode::Sessions | Mode::Power => prev,
        _ => mode,
    }
}

/// The screens with a text field.
pub open spec fn is_text_mode(mode: Mode) -> bool {
    mode == Mode::Username || mode == Mode::Password || mode == Mode::Command
}

/// The text that the current mode edits.
pub open spec fn edited_text(app: App) -> Seq<char> {
    if app.auth.mode == Mode::Username {
        app.auth.username.value@
    } else {
        app.auth.buffer@
    }
}

/// `n` is `o` but for the edited text and the cursor offset, set to `off`.
pub open spec fn text_changed(o: App, n: App, off: i16) -> bool {
    if o.auth.mode == Mode::Username {
        n == App {
            auth: AuthState {
                username: MaskedString { value: n.auth.username.value, ..o.auth.username },
                cursor_offset: off,
                ..o.auth
            },
            ..o
        }
    } else {
        n == App { auth: AuthState { buffer: n.auth.buffer, cursor_offset: off, ..o.auth }, ..o }
    }
}

/// The index at which a character is typed: the cursor's position when it
/// lies within the text, else the end.
pub open spec fn insert_pos(len: nat, off: i16) -> int {
    let idx = (len as i16) + off;
    if 0 <= idx <= len {
        idx
    } else {
        len as int
    }
}

pub open spec fn saturating_dec(n: int) -> int {
    if n > 0 {
        n - 1
    } else {
        0
    }
}

/// The screens that show a menu.
pub open spec fn is_menu_mode(mode: Mode) -> bool {
    mode == Mode::Users || mode == Mode::Sessions || mode == Mode::Power
}

/// The selected entry and the number of entries of the current menu.
pub open spec fn menu_state(app: App) -> (int, int) {
    match app.auth.mode {
        Mode::Users => (app.users.menu.selected as int, app.users.menu.options.len() as int),
        Mode::Sessions => (
            app.sessions.menu.selected as int,
            app.sessions.menu.options.len() as int,
        ),
        _ => (app.power.menu.selected as int, app.power.menu.options.len() as int),
    }
}

/// `app` with the current menu's selection set to `sel`.
pub open spec fn with_selected(app: App, sel: usize) -> App {
    match app.auth.mode {
        Mode::Users => App {
            users: UserState { menu: Menu { selected: sel, ..app.users.menu }, ..app.users },
            ..app
        },
        Mode::Sessions => App {
            sessions: SessionState {
                menu: Menu { selected: sel, ..app.sessions.menu },
                ..app.sessions
            },
            ..app
        },
        Mode::Power => App {
            power: PowerState { menu: Menu { selected: sel, ..app.power.menu }, ..app.power },
            ..app
        },
        _ => app,
    }
}

/// How a menu selection moves.
#[derive(Debug, Clone, Copy, PartialEq, Eq, Structural)]
pub enum Step {
    /// Up one entry, stopping at the first.
    Up,
    /// Down one entry, stopping at the last.
    Down,
    /// Down one entry, from the last back to the first.
    Next,
    /// Up one entry, from the first round to the last.
    Prev,
}

/// The selection after a move.
pub open spec fn step(kind: Step, sel: int, len: int) -> int {
    match kind {
        Step::Up => step_up(sel, len),
        Step::Down => step_down(sel, len),
        Step::Next => step_next(sel, len),
        Step::Prev => step_prev(sel, len),
    }
}

/// A menu move: `n` has the current menu's selection moved, or is `o`
/// outside menus.
pub open spec fn menu_moved(o: App, n: App, kind: Step) -> bool {
    if is_menu_mode(o.auth.mode) {
        let (sel, len) = menu_state(o);
        n == with_selected(o, step(kind, sel, len) as usize)
    } else {
        n == o
    }
}

pub open spec fn step_up(sel: int, len: int) -> int {
    saturating_dec(sel)
}

pub open spec fn step_down(sel: int, len: int) -> int {
    if sel < saturating_dec(len) {
        sel + 1
    } else {
        sel
    }
}

pub open spec fn step_next(sel: int, len: int) -> int {
    if sel < saturating_dec(len) {
        sel + 1
    } else {
        0
    }
}

pub open spec fn step_prev(sel: int, len: int) -> int {
    if sel > 0 {
        sel - 1
    } else {
        saturating_dec(len)
    }
}

pub open spec fn opt_or_empty(o: Option<String>) -> Seq<char> {
    match o {
        Some(s) => s@,
        None => Seq::<char>::empty(),
    }
}

/// The effect of submitting a user name from state `mid`: the greeter is
/// busy, the message and typed text are cleared, the user's remembered
/// session is restored, and greetd is asked for a session.
pub open spec fn validated(
    mid: App,
    n: App,
    m: Map<Seq<char>, Seq<char>>,
    cmd: KeyCommandView,
    ops: Seq<FileOpView>,
) -> bool {
    &&& (n.sessions.source@, n.sessions.menu.selected as int) == (if mid.remember.user_session {
        after_user_session(
            m,
            mid.auth.username@.value,
            mid.sessions.source@,
            mid.sessions.menu.selected as int,
            mid.sessions.menu.options@,
        )
    } else {
        (mid.sessions.source@, mid.sessions.menu.selected as int)
    })
    &&& n.sessions == (SessionState {
        source: n.sessions.source,
        menu: Menu { selected: n.sessions.menu.selected, ..mid.sessions.menu },
        ..mid.sessions
    })
    &&& n.auth.buffer@ == Seq::<char>::empty()
    &&& n == (App {
        working: true,
        ui: UiState { message: None, ..mid.ui },
        auth: AuthState { buffer: n.auth.buffer, ..mid.auth },
        sessions: n.sessions,
        ..mid
    })
    &&& cmd == KeyCommandView::CreateSession(mid.auth.username.value@)
    &&& ops == Seq::<FileOpView>::empty()
}

/// Nothing changes and nothing is to be done.
pub open spec fn unchanged(o: App, n: App, cmd: KeyCommandView, ops: Seq<FileOpView>) -> bool {
    n == o && cmd == KeyCommandView::Nothing && ops == Seq::<FileOpView>::empty()
}

/// No command and no file changes.
pub open spec fn quiet(cmd: KeyCommandView, ops: Seq<FileOpView>) -> bool {
    cmd == KeyCommandView::Nothing && ops == Seq::<FileOpView>::empty()
}

pub open spec fn in_i16(x: int) -> bool {
    i16::MIN <= x <= i16::MAX
}

/// The key press can be handled without an arithmetic overflow: the cursor
/// offset stays within its range, and the character count of the edited
/// text, taken as an `i16`, added to the offset stays in range too.
pub open spec fn handle_safe(app: App, k: KeyEvent) -> bool {
    let off = app.auth.cursor_offset as int;
    let n = (edited_text(app).len() as i16) as int;
    let text = is_text_mode(app.auth.mode);
    match arm_of(app, k) {
        Arm::Left => off > i16::MIN,
        Arm::Right => off < i16::MAX,
        Arm::LineStart => n != i16::MIN,
        Arm::Insert(_) => text ==> in_i16(n + off),
        Arm::Backspace => text ==> in_i16(n + off) && in_i16(n + off - 1),
        Arm::Delete => text ==> in_i16(n + off) && (0 <= n + off < edited_text(app).len() ==> off
            < i16::MAX),
        _ => true,
    }
}

/// The cursor offset set to `off`, all else kept.
pub open spec fn cursor_set(o: App, n: App, off: int) -> bool {
    n == App { auth: AuthState { cursor_offset: off as i16, ..o.auth }, ..o }
}

/// ^U: the edited text is emptied (for a user name, also its mask).
pub open spec fn cleared(o: App, n: App) -> bool {
    match o.auth.mode {
        Mode::Username => n == App {
            auth: AuthState { username: n.auth.username, ..o.auth },
            ..o
        } && n.auth.username.value@ == Seq::<char>::empty() && n.auth.username.mask is None,
        Mode::Password | Mode::Command => n == App {
            auth: AuthState { buffer: n.auth.buffer, ..o.auth },
            ..o
        } && n.auth.buffer@ == Seq::<char>::empty(),
        _ => n == o,
    }
}

/// Escape: a popup closes (the command editor also gives back the text it
/// replaced); elsewhere the session is cancelled.
pub open spec fn escaped(o: App, n: App, cmd: KeyCommandView) -> bool {
    match o.auth.mode {
        Mode::Command => cmd == KeyCommandView::Nothing && n == App {
            auth: AuthState {
                mode: o.auth.previous_mode,
                buffer: n.auth.buffer,
                previous_buffer: None,
                cursor_offset: 0,
                ..o.auth
            },
            ..o
        } && n.auth.buffer@ == opt_or_empty(o.auth.previous_buffer),
        Mode::Users | Mode::Sessions | Mode::Power => cmd == KeyCommandView::Nothing && n == App {
            auth: AuthState { mode: o.auth.previous_mode, ..o.auth },
            ..o
        },
        _ => cmd == KeyCommandView::Cancel && reset_from(o, n, false),
    }
}

/// The command editor opens on the current session command, keeping the
/// typed text to give back.
pub open spec fn command_menu_opened(o: App, n: App) -> bool {
    &&& n == App {
        auth: AuthState {
            previous_mode: menu_prev(o.auth.mode, o.auth.previous_mode),
            previous_buffer: Some(o.auth.buffer),
            buffer: n.auth.buffer,
            cursor_offset: 0,
            mode: Mode::Command,
            ..o.auth
        },
        ..o
    }
    &&& n.auth.buffer@ == match source_command(o.sessions.source@, o.sessions.menu.options@) {
        Some(c) => c,
        None => Seq::<char>::empty(),
    }
}

/// A menu popup opens.
pub open spec fn menu_opened(o: App, n: App, mode: Mode) -> bool {
    n == App {
        auth: AuthState {
            previous_mode: menu_prev(o.auth.mode, o.auth.previous_mode),
            mode,
            ..o.auth
        },
        ..o
    }
}

/// A typed character goes into the edited text at the cursor.
pub open spec fn inserted(o: App, n: App, c: char) -> bool {
    if is_text_mode(o.auth.mode) {
        let e = edited_text(o);
        text_changed(o, n, o.auth.cursor_offset) && edited_text(n) == e.insert(
            insert_pos(e.len(), o.auth.cursor_offset),
            c,
        )
    } else {
        n == o
    }
}

/// Backspace removes the character before the cursor, if there is one.
pub open spec fn backspaced(o: App, n: App) -> bool {
    let e = edited_text(o);
    let idx = (e.len() as i16) + o.auth.cursor_offset - 1;
    if is_text_mode(o.auth.mode) && 0 <= idx < e.len() {
        text_changed(o, n, o.auth.cursor_offset) && edited_text(n) == e.remove(idx)
    } else {
        n == o
    }
}

/// Delete removes the character under the cursor, if there is one, and
/// the cursor keeps its place.
pub open spec fn deleted(o: App, n: App) -> bool {
    let e = edited_text(o);
    let idx = (e.len() as i16) + o.auth.cursor_offset;
    if is_text_mode(o.auth.mode) && 0 <= idx < e.len() {
        text_changed(o, n, (o.auth.cursor_offset + 1) as i16) && edited_text(n) == e.remove(idx)
    } else {
        n == o
    }
}

/// Enter: submits or confirms what the current screen holds.
pub open spec fn entered(
    o: App,
    n: App,
    m: Map<Seq<char>, Seq<char>>,
    cmd: KeyCommandView,
    ops: Seq<FileOpView>,
) -> bool {
    let prev = o.auth.previous_mode;
    match o.auth.mode {
        Mode::Username => if o.auth.username.value@.len() > 0 {
            validated(o, n, m, cmd, ops)
        } else if o.users.menu_enabled {
            &&& quiet(cmd, ops)
            &&& n == App {
                auth: AuthState {
                    previous_mode: Mode::Username,
                    buffer: n.auth.buffer,
                    previous_buffer: None,
                    mode: Mode::Users,
                    ..o.auth
                },
                ..o
            }
            &&& n.auth.buffer@ == opt_or_empty(o.auth.previous_buffer)
        } else {
            unchanged(o, n, cmd, ops)
        },
        Mode::Password => {
            &&& cmd == KeyCommandView::AuthResponse(o.auth.buffer@)
            &&& ops == Seq::<FileOpView>::empty()
            &&& n == App {
                working: true,
                ui: UiState { message: None, ..o.ui },
                auth: AuthState { buffer: n.auth.buffer, ..o.auth },
                ..o
            }
            &&& n.auth.buffer@ == Seq::<char>::empty()
        },
        Mode::Command => {
            let mid = App {
                sessions: SessionState {
                    source: n.sessions.source,
                    menu: Menu { selected: 0, ..o.sessions.menu },
                    ..o.sessions
                },
                ..o
            };
            &&& n.sessions.source@ == crate::sessions::SourceView::Command(o.auth.buffer@)
            &&& cmd == KeyCommandView::Nothing
            &&& ops == select_ops(o.remember, mid)
            &&& n == App {
                auth: AuthState {
                    buffer: n.auth.buffer,
                    previous_buffer: None,
                    mode: prev,
                    ..o.auth
                },
                ..mid
            }
            &&& n.auth.buffer@ == opt_or_empty(o.auth.previous_buffer)
        },
        Mode::Users => {
            let sel = o.users.menu.selected as int;
            let opts = o.users.menu.options@;
            let mid = if sel < opts.len() {
                App {
                    auth: AuthState {
                        username: MaskedString { value: opts[sel].username, mask: opts[sel].name },
                        mode: prev,
                        ..o.auth
                    },
                    ..o
                }
            } else {
                App { auth: AuthState { mode: prev, ..o.auth }, ..o }
            };
            validated(mid, n, m, cmd, ops)
        },
        Mode::Sessions => {
            let sel = o.sessions.menu.selected;
            if sel < o.sessions.menu.options.len() {
                let mid = App {
                    sessions: SessionState { source: SessionSource::Session(sel), ..o.sessions },
                    ..o
                };
                &&& cmd == KeyCommandView::Nothing
                &&& ops == select_ops(o.remember, mid)
                &&& n == App { auth: AuthState { mode: prev, ..o.auth }, ..mid }
            } else {
                quiet(cmd, ops) && n == App { auth: AuthState { mode: prev, ..o.auth }, ..o }
            }
        },
        Mode::Power => {
            let sel = o.power.menu.selected as int;
            &&& ops == Seq::<FileOpView>::empty()
            &&& n == App { auth: AuthState { mode: prev, ..o.auth }, ..o }
            &&& cmd == if sel < o.power.menu.options.len() {
                KeyCommandView::Power(o.power.menu.options@[sel].action)
            } else {
                KeyCommandView::Nothing
            }
        },
        _ => unchanged(o, n, cmd, ops),
    }
}

/// What a key press does to the greeter's state, what it asks the caller
/// to do, and which remembered files it changes.
pub open spec fn key_handled(
    o: App,
    n: App,
    k: KeyEvent,
    m: Map<Seq<char>, Seq<char>>,
    cmd: KeyCommandView,
    ops: Seq<FileOpView>,
) -> bool {
    let off = o.auth.cursor_offset as int;
    match arm_of(o, k) {
        Arm::Busy | Arm::Ignored => unchanged(o, n, cmd, ops),
        Arm::DirectPower(p) => n == o && cmd == KeyCommandView::Power(p) && ops
            == Seq::<FileOpView>::empty(),
        Arm::ClearInput => quiet(cmd, ops) && cleared(o, n),
        Arm::Escape => ops == Seq::<FileOpView>::empty() && escaped(o, n, cmd),
        Arm::Left => quiet(cmd, ops) && cursor_set(o, n, off - 1),
        Arm::Right => quiet(cmd, ops) && cursor_set(o, n, off + 1),
        Arm::CommandMenu => quiet(cmd, ops) && command_menu_opened(o, n),
        Arm::SessionsMenu => quiet(cmd, ops) && menu_opened(o, n, Mode::Sessions),
        Arm::PowerMenu => quiet(cmd, ops) && menu_opened(o, n, Mode::Power),
        Arm::Up => quiet(cmd, ops) && menu_moved(o, n, Step::Up),
        Arm::Down => quiet(cmd, ops) && menu_moved(o, n, Step::Down),
        Arm::LineStart => quiet(cmd, ops) && cursor_set(
            o,
            n,
            -((edited_text(o).len() as i16) as int),
        ),
        Arm::LineEnd => quiet(cmd, ops) && cursor_set(o, n, 0),
        Arm::Tab => if o.auth.mode == Mode::Username && o.auth.username.value@.len() > 0 {
            validated(o, n, m, cmd, ops)
        } else {
            quiet(cmd, ops) && menu_moved(o, n, Step::Next)
        },
        Arm::BackTab => quiet(cmd, ops) && menu_moved(o, n, Step::Prev),
        Arm::Enter => entered(o, n, m, cmd, ops),
        Arm::Insert(c) => quiet(cmd, ops) && inserted(o, n, c),
        Arm::Backspace => quiet(cmd, ops) && backspaced(o, n),
        Arm::Delete => quiet(cmd, ops) && deleted(o, n),
    }
}

// ---------------------------------------------------------------------------
// Effects
// ---------------------------------------------------------------------------

fn edited_chars(app: &App) -> (r: Vec<char>)
    ensures
        r@ == edited_text(*app),
{
    if app.auth.mode == Mode::Username {
        chars_of(app.auth.username.value.as_str())
    } else {
        chars_of(app.auth.buffer.as_str())
    }
}

fn set_edited(app: &mut App, v: &Vec<char>, off: i16)
    ensures
        text_changed(*old(app), *final(app), off),
        edited_text(*final(app)) == v@,
{
    let s = string_from(v);
    app.auth.cursor_offset = off;
    if app.auth.mode == Mode::Username {
        app.auth.username.value = s;
    } else {
        app.auth.buffer = s;
    }
}

/// Whether handling the key press stays free of arithmetic overflow.
pub fn is_safe(app: &App, k: KeyEvent) -> (r: bool)
    ensures
        r == handle_safe(*app, k),
{
    let off = app.auth.cursor_offset as i32;
    let v = edited_chars(app);
    let n = (v.len() as i16) as i32;
    let text = app.auth.mode == Mode::Username || app.auth.mode == Mode::Password || app.auth.mode
        == Mode::Command;
    match arm(app, k) {
        Arm::Left => off > -32768,
        Arm::Right => off < 32767,
        Arm::LineStart => n != -32768,
        Arm::Insert(_) => !text || (-32768 <= n + off && n + off <= 32767),
        Arm::Backspace => !text || (-32768 <= n + off - 1 && n + off <= 32767),
        Arm::Delete => !text || (-32768 <= n + off && n + off <= 32767 && (!(0 <= n + off && ((n
            + off) as usize) < v.len()) || off < 32767)),
        _ => true,
    }
}

fn clear_input(app: &mut App)
    ensures
        cleared(*old(app), *final(app)),
{
    match app.auth.mode {
        Mode::Username => app.auth.username = MaskedString::empty(),
        Mode::Password | Mode::Command => app.auth.buffer = String::new(),
        _ => {},
    }
}

fn take_previous_buffer(app: &mut App) -> (r: String)
    ensures
        r@ == opt_or_empty(old(app).auth.previous_buffer),
        *final(app) == (App {
            auth: AuthState { previous_buffer: None, ..old(app).auth },
            ..*old(app)
        }),
{
    let mut prev: Option<String> = None;
    std::mem::swap(&mut prev, &mut app.auth.previous_buffer);
    match prev {
        Some(b) => b,
        None => String::new(),
    }
}

fn escape(app: &mut App) -> (r: KeyCommand)
    ensures
        escaped(*old(app), *final(app), r@),
{
    match app.auth.mode {
        Mode::Command => {
            app.auth.mode = app.auth.previous_mode;
            let b = take_previous_buffer(app);
            app.auth.buffer = b;
            app.auth.cursor_offset = 0;
            KeyCommand::Nothing
        },
        Mode::Users | Mode::Sessions | Mode::Power => {
            app.auth.mode = app.auth.previous_mode;
            KeyCommand::Nothing
        },
        _ => {
            app.reset(false);
            KeyCommand::Cancel
        },
    }
}

fn previous_for_menu(mode: Mode, prev: Mode) -> (r: Mode)
    ensures
        r == menu_prev(mode, prev),
{
    match mode {
        Mode::Users | Mode::Command | Mode::Sessions | Mode::Power => prev,
        _ => mode,
    }
}

fn open_command_menu(app: &mut App)
    ensures
        command_menu_opened(*old(app), *final(app)),
{
    app.auth.previous_mode = previous_for_menu(app.auth.mode, app.auth.previous_mode);
    let command = match app.sessions.source.command(app) {
        Some(c) => {
            let mut s = String::new();
            crate::text::push_str(&mut s, c);
            s
        },
        None => String::new(),
    };
    let mut buffer = command;
    std::mem::swap(&mut buffer, &mut app.auth.buffer);
    app.auth.previous_buffer = Some(buffer);
    app.auth.cursor_offset = 0;
    app.auth.mode = Mode::Command;
}

fn open_menu(app: &mut App, mode: Mode)
    ensures
        menu_opened(*old(app), *final(app), mode),
{
    app.auth.previous_mode = previous_for_menu(app.auth.mode, app.auth.previous_mode);
    app.auth.mode = mode;
}

fn saturating_dec_exec(n: usize) -> (r: usize)
    ensures
        r == saturating_dec(n as int),
{
    if n > 0 {
        n - 1
    } else {
        0
    }
}

fn move_selection(app: &mut App, kind: Step)
    ensures
        menu_moved(*old(app), *final(app), kind),
{
    let (sel, len) = match app.auth.mode {
        Mode::Users => (app.users.menu.selected, app.users.menu.options.len()),
        Mode::Sessions => (app.sessions.menu.selected, app.sessions.menu.options.len()),
        Mode::Power => (app.power.menu.selected, app.power.menu.options.len()),
        _ => {
            return ;
        },
    };
    let last = saturating_dec_exec(len);
    let new_sel = match kind {
        Step::Up => saturating_dec_exec(sel),
        Step::Down => if sel < last {
            sel + 1
        } else {
            sel
        },
        Step::Next => if sel < last {
            sel + 1
        } else {
            0
        },
        Step::Prev => if sel > 0 {
            sel - 1
        } else {
            last
        },
    };
    match app.auth.mode {
        Mode::Users => app.users.menu.selected = new_sel,
        Mode::Sessions => app.sessions.menu.selected = new_sel,
        _ => app.power.menu.selected = new_sel,
    }
}

fn validate_username(app: &mut App, store: &Store) -> (r: KeyCommand)
    ensures
        validated(*old(app), *final(app), store@, r@, Seq::<FileOpView>::empty()),
{
    app.working = true;
    app.ui.message = None;
    let username = app.auth.username.value.clone();
    app.auth.buffer = String::new();
    let mut sessions = SessionState {
        source: SessionSource::Unset,
        paths: Vec::new(),
        menu: Menu { title: String::new(), options: Vec::new(), selected: 0 },
        session_wrapper: None,
        xsession_wrapper: None,
    };
    std::mem::swap(&mut sessions, &mut app.sessions);
    let remember = &app.remember;
    remember.restore_user_session(store, &mut app.auth, &mut sessions);
    std::mem::swap(&mut sessions, &mut app.sessions);
    KeyCommand::CreateSession(username)
}

fn insert_key(app: &mut App, c: char)
    requires
        is_text_mode(old(app).auth.mode) ==> in_i16(
            (edited_text(*old(app)).len() as i16) + old(app).auth.cursor_offset,
        ),
    ensures
        inserted(*old(app), *final(app), c),
{
    if !(app.auth.mode == Mode::Username || app.auth.mode == Mode::Password || app.auth.mode
        == Mode::Command) {
        return ;
    }
    let mut v = edited_chars(app);
    let n = v.len() as i16;
    let idx: i16 = n + app.auth.cursor_offset;
    let pos: usize = if idx < 0 {
        v.len()
    } else if (idx as usize) > v.len() {
        v.len()
    } else {
        idx as usize
    };
    v.insert(pos, c);
    let off = app.auth.cursor_offset;
    set_edited(app, &v, off);
}

fn delete_key(app: &mut App, backspace: bool)
    requires
        is_text_mode(old(app).auth.mode) ==> ({
            let n = (edited_text(*old(app)).len() as i16) as int;
            let off = old(app).auth.cursor_offset as int;
            &&& in_i16(n + off)
            &&& backspace ==> in_i16(n + off - 1)
            &&& !backspace && 0 <= n + off < edited_text(*old(app)).len() ==> off < i16::MAX
        }),
    ensures
        backspace ==> backspaced(*old(app), *final(app)),
        !backspace ==> deleted(*old(app), *final(app)),
{
    if !(app.auth.mode == Mode::Username || app.auth.mode == Mode::Password || app.auth.mode
        == Mode::Command) {
        return ;
    }
    let mut v = edited_chars(app);
    let n = v.len() as i16;
    let off = app.auth.cursor_offset;
    let idx: i16 = if backspace {
        n + off - 1
    } else {
        n + off
    };
    if idx >= 0 && (idx as usize) < v.len() {
        v.remove(idx as usize);
        let new_off = if backspace {
            off
        } else {
            off + 1
        };
        set_edited(app, &v, new_off);
    }
}

fn no_ops() -> (r: Vec<FileOp>)
    ensures
        op_views(r@) == Seq::<FileOpView>::empty(),
{
    let r: Vec<FileOp> = Vec::new();
    assert(op_views(r@) =~= Seq::<FileOpView>::empty());
    r
}

fn enter(app: &mut App, store: &Store) -> (r: (KeyCommand, Vec<FileOp>))
    ensures
        entered(*old(app), *final(app), store@, r.0@, op_views(r.1@)),
{
    let prev = app.auth.previous_mode;
    match app.auth.mode {
        Mode::Username => {
            if app.auth.username.value.as_str().is_empty() == false {
                let c = validate_username(app, store);
                (c, no_ops())
            } else if app.users.menu_enabled {
                app.auth.previous_mode = Mode::Username;
                let b = take_previous_buffer(app);
                app.auth.buffer = b;
                app.auth.mode = Mode::Users;
                (KeyCommand::Nothing, no_ops())
            } else {
                (KeyCommand::Nothing, no_ops())
            }
        },
        Mode::Password => {
            app.working = true;
            app.ui.message = None;
            let mut answer = String::new();
            std::mem::swap(&mut answer, &mut app.auth.buffer);
            (KeyCommand::AuthResponse(answer), no_ops())
        },
        Mode::Command => {
            app.sessions.menu.selected = 0;
            app.sessions.source = SessionSource::Command(app.auth.buffer.clone());
            let ops = app.remember.save_on_session_select(app);
            let b = take_previous_buffer(app);
            app.auth.buffer = b;
            app.auth.mode = prev;
            (KeyCommand::Nothing, ops)
        },
        Mode::Users => {
            let sel = app.users.menu.selected;
            if sel < app.users.menu.options.len() {
                let value = app.users.menu.options[sel].username.clone();
                let mask = clone_opt(&app.users.menu.options[sel].name);
                app.auth.username = MaskedString::from(value, mask);
            }
            app.auth.mode = prev;
            let c = validate_username(app, store);
            (c, no_ops())
        },
        Mode::Sessions => {
            let sel = app.sessions.menu.selected;
            if sel < app.sessions.menu.options.len() {
                app.sessions.source = SessionSource::Session(sel);
                let ops = app.remember.save_on_session_select(app);
                app.auth.mode = prev;
                (KeyCommand::Nothing, ops)
            } else {
                app.auth.mode = prev;
                (KeyCommand::Nothing, no_ops())
            }
        },
        Mode::Power => {
            let sel = app.power.menu.selected;
            let c = if sel < app.power.menu.options.len() {
                KeyCommand::Power(app.power.menu.options[sel].action)
            } else {
                KeyCommand::Nothing
            };
            app.auth.mode = prev;
            (c, no_ops())
        },
        _ => {
            (KeyCommand::Nothing, no_ops())
        },
    }
}

/// Acts on a key press: updates the greeter's state and says what the
/// caller has to do next and which remembered files to change.
pub fn handle(app: &mut App, input: KeyEvent, store: &Store) -> (r: (KeyCommand, Vec<FileOp>))
    requires
        handle_safe(*old(app), input),
    ensures
        key_handled(*old(app), *final(app), input, store@, r.0@, op_views(r.1@)),
{
    let none: Vec<FileOp> = Vec::new();
    assert(op_views(none@) =~= Seq::<FileOpView>::empty());
    match arm(app, input) {
        Arm::Busy | Arm::Ignored => (KeyCommand::Nothing, none),
        Arm::DirectPower(p) => (KeyCommand::Power(p), none),
        Arm::ClearInput => {
            clear_input(app);
            (KeyCommand::Nothing, none)
        },
        Arm::Escape => (escape(app), none),
        Arm::Left => {
            app.auth.cursor_offset = app.auth.cursor_offset - 1;
            (KeyCommand::Nothing, none)
        },
        Arm::Right => {
            app.auth.cursor_offset = app.auth.cursor_offset + 1;
            (KeyCommand::Nothing, none)
        },
        Arm::CommandMenu => {
            open_command_menu(app);
            (KeyCommand::Nothing, none)
        },
        Arm::SessionsMenu => {
            open_menu(app, Mode::Sessions);
            (KeyCommand::Nothing, none)
        },
        Arm::PowerMenu => {
            open_menu(app, Mode::Power);
            (KeyCommand::Nothing, none)
        },
        Arm::Up => {
            move_selection(app, Step::Up);
            (KeyCommand::Nothing, none)
        },
        Arm::Down => {
            move_selection(app, Step::Down);
            (KeyCommand::Nothing, none)
        },
        Arm::LineStart => {
            let v = edited_chars(app);
            let n = v.len() as i16;
            app.auth.cursor_offset = -n;
            (KeyCommand::Nothing, none)
        },
        Arm::LineEnd => {
            app.auth.cursor_offset = 0;
            (KeyCommand::Nothing, none)
        },
        Arm::Tab => {
            if app.auth.mode == Mode::Username && !app.auth.username.value.as_str().is_empty() {
                (validate_username(app, store), none)
            } else {
                move_selection(app, Step::Next);
                (KeyCommand::Nothing, none)
            }
        },
        Arm::BackTab => {
            move_selection(app, Step::Prev);
            (KeyCommand::Nothing, none)
        },
        Arm::Enter => enter(app, store),
        Arm::Insert(c) => {
            insert_key(app, c);
            (KeyCommand::Nothing, none)
        },
        Arm::Backspace => {
            delete_key(app, true);
            (KeyCommand::Nothing, none)
        },
        Arm::Delete => {
            delete_key(app, false);
            (KeyCommand::Nothing, none)
        },
    }
}

} // verus!
