use vstd::prelude::*;

use crate::masked::MaskedView;
use crate::remember::{
    after_global_session, after_user_session, login_ops, read, remembered_user, restored_sessions,
    select_ops, selection_ops, user_file, username_ops, Remember,
};
use crate::sessions::{first_at, lemma_first_at_exists, session_at, Session, SessionSource, SourceView};
use crate::config::keybindings_distinct;
use crate::keyboard::{
    arm_of, Arm, edited_text, is_text_mode, key_handled, menu_prev, menu_state, KeyCode, KeyCommandView,
    KeyEvent, text_changed,
};
use crate::greetd::{response_handled, GreetdActionView, GreetdResponseView};
use crate::power::PowerOption;
use crate::state::{prompt_text, remember_flags_agree, ui_remember, App, AuthState, Mode};
use crate::style::{
    black_bytes, blue_bytes, cyan_bytes, green_bytes, magenta_bytes, parse_color_spec, red_bytes, white_bytes,
    yellow_bytes, Color, color_from_str_spec, directive, directives_applied, first_index, theme_spec, with_key, Component,
    Theme,
};
use crate::text::split_spec;
use crate::terminal::bg_sequence;
use crate::vt::{switch_back, vt_step, VtController, VtEvent, VtWork};
use crate::store::{apply_op, apply_ops, FileOpView};
use crate::text::{trim, trimmed_nonempty};

verus! {

pub open spec fn op_name(op: FileOpView) -> Seq<char> {
    match op {
        FileOpView::Write(n, _) => n,
        FileOpView::Delete(n) => n,
    }
}

proof fn lemma_apply_concat(
    m: Map<Seq<char>, Seq<char>>,
    a: Seq<FileOpView>,
    b: Seq<FileOpView>,
)
    ensures
        apply_ops(m, a + b) == apply_ops(apply_ops(m, a), b),
    decreases b.len(),
{
    if b.len() == 0 {
        assert(a + b =~= a);
    } else {
        lemma_apply_concat(m, a, b.drop_last());
        assert((a + b).drop_last() =~= a + b.drop_last());
        assert((a + b).last() == b.last());
    }
}

proof fn lemma_apply_two(m: Map<Seq<char>, Seq<char>>, a: FileOpView, b: FileOpView)
    ensures
        apply_ops(m, seq![a, b]) == apply_op(apply_op(m, a), b),
{
    let s = seq![a, b];
    assert(s.drop_last() =~= seq![a]);
    assert(seq![a].drop_last() =~= Seq::<FileOpView>::empty());
    assert(apply_ops(m, Seq::<FileOpView>::empty()) == m);
    assert(apply_ops(m, seq![a]) == apply_op(m, a));
}

proof fn lemma_apply_untouched(m: Map<Seq<char>, Seq<char>>, ops: Seq<FileOpView>, k: Seq<char>)
    requires
        forall|i: int| 0 <= i < ops.len() ==> op_name(#[trigger] ops[i]) != k,
    ensures
        apply_ops(m, ops).contains_key(k) == m.contains_key(k),
        m.contains_key(k) ==> apply_ops(m, ops)[k] == m[k],
    decreases ops.len(),
{
    if ops.len() > 0 {
        assert(op_name(ops[ops.len() - 1]) != k);
        lemma_apply_untouched(m, ops.drop_last(), k);
    }
}

/// The names of the remembered files never clash with one another.
proof fn lemma_names(u: Seq<char>)
    ensures
        "lastuser"@ != "lastuser-name"@,
        "lastsession"@ != "lastsession-path"@,
        user_file("lastsession"@, u) != "lastuser"@,
        user_file("lastsession"@, u) != "lastuser-name"@,
        user_file("lastsession-path"@, u) != "lastuser"@,
        user_file("lastsession-path"@, u) != "lastuser-name"@,
        user_file("lastsession"@, u) != user_file("lastsession-path"@, u),
{
    reveal_strlit("lastuser");
    reveal_strlit("lastuser-name");
    reveal_strlit("lastsession");
    reveal_strlit("lastsession-path");
    assert("lastuser"@.len() == 8);
    assert("lastuser-name"@.len() == 13);
    assert("lastsession"@.len() == 11);
    assert("lastsession-path"@.len() == 16);
    assert(user_file("lastsession"@, u)[4] == 's');
    assert(user_file("lastsession-path"@, u)[4] == 's');
    assert("lastuser"@[4] == 'u');
    assert("lastuser-name"@[4] == 'u');
    assert(user_file("lastsession"@, u).len() != user_file("lastsession-path"@, u).len());
}

/// Two writes or a write and a delete on the given files.
proof fn lemma_selection_names(
    src: SourceView,
    options: Seq<Session>,
    c: Seq<char>,
    p: Seq<char>,
    k: Seq<char>,
)
    requires
        k != c,
        k != p,
    ensures
        forall|i: int|
            0 <= i < selection_ops(src, options, c, p).len() ==> op_name(
                #[trigger] selection_ops(src, options, c, p)[i],
            ) != k,
{
}

/// What a login records of the user is what a later restore gives back:
/// the login name and the display name, each without surrounding white
/// space (a display name of only white space is not restored).
pub proof fn law_user_round_trip(r: Remember, app: App, m: Map<Seq<char>, Seq<char>>)
    requires
        r.username,
        trim(app.auth.username.value@).len() > 0,
    ensures
        remembered_user(r, apply_ops(m, login_ops(r, app))) == Some(
            MaskedView {
                value: trim(app.auth.username.value@),
                mask: match app.auth.username.mask {
                    Some(n) => trimmed_nonempty(n@),
                    None => None,
                },
            },
        ),
{
    let u = app.auth.username@;
    let a = username_ops(u);
    let v = app.auth.username.value@;
    let b = if r.user_session {
        selection_ops(
            app.sessions.source@,
            app.sessions.menu.options@,
            user_file("lastsession"@, v),
            user_file("lastsession-path"@, v),
        )
    } else {
        seq![]
    };
    assert(login_ops(r, app) == a + b);
    lemma_apply_concat(m, a, b);
    lemma_names(v);
    lemma_selection_names(
        app.sessions.source@,
        app.sessions.menu.options@,
        user_file("lastsession"@, v),
        user_file("lastsession-path"@, v),
        "lastuser"@,
    );
    lemma_selection_names(
        app.sessions.source@,
        app.sessions.menu.options@,
        user_file("lastsession"@, v),
        user_file("lastsession-path"@, v),
        "lastuser-name"@,
    );
    let m1 = apply_ops(m, a);
    lemma_apply_untouched(m1, b, "lastuser"@);
    lemma_apply_untouched(m1, b, "lastuser-name"@);
    lemma_apply_two(m, a[0], a[1]);
    assert(a == seq![a[0], a[1]]);
    assert(m1 == apply_op(m.insert("lastuser"@, v), a[1]));
    assert(m1.contains_key("lastuser"@) && m1["lastuser"@] == v);
    let m2 = apply_ops(m, login_ops(r, app));
    assert(m2 == apply_ops(m1, b));
    assert(read(m2, "lastuser"@) == Some(trim(v)));
    match app.auth.username.mask {
        Some(n) => {
            assert(m1.contains_key("lastuser-name"@) && m1["lastuser-name"@] == n@);
        },
        None => {
            assert(!m1.contains_key("lastuser-name"@));
        },
    }
}

/// A command chosen while the last session is remembered is what a later
/// restore selects, and no remembered session file is left to override it.
pub proof fn law_global_command_round_trip(
    r: Remember,
    app: App,
    m: Map<Seq<char>, Seq<char>>,
    src: SourceView,
    sel: int,
    options: Seq<Session>,
)
    requires
        r.session,
        app.sessions.source is Command,
        trim(app.sessions.source@->Command_0).len() > 0,
    ensures
        !apply_ops(m, select_ops(r, app)).contains_key("lastsession-path"@),
        after_global_session(apply_ops(m, select_ops(r, app)), src, sel, options) == (
            SourceView::Command(trim(app.sessions.source@->Command_0)),
            sel,
        ),
{
    let ops = select_ops(r, app);
    let c = app.sessions.source@->Command_0;
    lemma_names(seq![]);
    lemma_apply_two(m, ops[0], ops[1]);
    assert(ops == seq![ops[0], ops[1]]);
    let m2 = apply_ops(m, ops);
    assert(m2 == m.insert("lastsession"@, c).remove("lastsession-path"@));
    assert(read(m2, "lastsession"@) == Some(trim(c)));
    assert(read(m2, "lastsession-path"@) is None);
}

/// A listed session with a file, chosen while the last session is
/// remembered, is what a later restore selects: the first listed session
/// with the same file, which is the chosen one unless an earlier entry
/// shares its file.
pub proof fn law_global_session_round_trip(
    r: Remember,
    app: App,
    m: Map<Seq<char>, Seq<char>>,
    src: SourceView,
)
    requires
        r.session,
        app.sessions.source is Session,
        app.sessions.source@->Session_0 < app.sessions.menu.options.len(),
        app.sessions.menu.options@[app.sessions.source@->Session_0].path is Some,
        app.sessions.menu.options@[app.sessions.source@->Session_0].path->0@.len() > 0,
        trim(app.sessions.menu.options@[app.sessions.source@->Session_0].path->0@)
            == app.sessions.menu.options@[app.sessions.source@->Session_0].path->0@,
    ensures
        ({
            let i = app.sessions.source@->Session_0;
            let options = app.sessions.menu.options@;
            let p = options[i].path->0@;
            &&& !apply_ops(m, select_ops(r, app)).contains_key("lastsession"@)
            &&& first_at(options, p) is Some
            &&& first_at(options, p)->0 <= i
            &&& after_global_session(
                apply_ops(m, select_ops(r, app)),
                src,
                app.sessions.menu.selected as int,
                options,
            ) == (SourceView::Session(first_at(options, p)->0), first_at(options, p)->0)
        }),
{
    let i = app.sessions.source@->Session_0;
    let options = app.sessions.menu.options@;
    let p = options[i].path->0@;
    let ops = select_ops(r, app);
    lemma_names(seq![]);
    lemma_apply_two(m, ops[0], ops[1]);
    assert(ops == seq![ops[0], ops[1]]);
    let m2 = apply_ops(m, ops);
    assert(m2 == m.insert("lastsession-path"@, p).remove("lastsession"@));
    assert(read(m2, "lastsession-path"@) == Some(p));
    assert(read(m2, "lastsession"@) is None);
    assert(session_at(options[i], p));
    lemma_first_at_exists(options, p, i);
}

/// A command chosen by a user is restored for that user after a login
/// (whether or not the user has a display name), when per-user sessions
/// (and not the global session) are remembered.
pub proof fn law_user_command_round_trip(
    r: Remember,
    app: App,
    m: Map<Seq<char>, Seq<char>>,
    src: SourceView,
    sel: int,
    options: Seq<Session>,
)
    requires
        r.username,
        r.user_session,
        !r.session,
        app.auth.username.value@.len() > 0,
        trim(app.auth.username.value@) == app.auth.username.value@,
        app.sessions.source is Command,
        trim(app.sessions.source@->Command_0).len() > 0,
    ensures
        ({
            let m2 = apply_ops(m, login_ops(r, app));
            let u = remembered_user(r, m2)->0;
            &&& u.value == app.auth.username.value@
            &&& !m2.contains_key(user_file("lastsession-path"@, app.auth.username.value@))
            &&& restored_sessions(r, m2, u.value, src, sel, options) == (
                SourceView::Command(trim(app.sessions.source@->Command_0)),
                sel,
            )
        }),
{
    law_user_round_trip(r, app, m);
    let v = app.auth.username.value@;
    let a = username_ops(app.auth.username@);
    let b = selection_ops(
        app.sessions.source@,
        app.sessions.menu.options@,
        user_file("lastsession"@, v),
        user_file("lastsession-path"@, v),
    );
    assert(login_ops(r, app) == a + b);
    lemma_apply_concat(m, a, b);
    lemma_names(v);
    let c = app.sessions.source@->Command_0;
    let m1 = apply_ops(m, a);
    lemma_apply_two(m1, b[0], b[1]);
    assert(b == seq![b[0], b[1]]);
    let m2 = apply_ops(m, login_ops(r, app));
    assert(m2 == m1.insert(user_file("lastsession"@, v), c).remove(user_file("lastsession-path"@, v)));
    let u = remembered_user(r, m2)->0;
    assert(u.value == v);
    assert(read(m2, user_file("lastsession"@, v)) == Some(trim(c)));
    assert(read(m2, user_file("lastsession-path"@, v)) is None);
}


/// A listed session with a file, chosen by a user (with or without a
/// display name), is what a later restore selects for that user (the first listed session
/// with the same file), when per-user sessions (and not the global session)
/// are remembered; no remembered command is left to override it.
pub proof fn law_user_session_round_trip(
    r: Remember,
    app: App,
    m: Map<Seq<char>, Seq<char>>,
    src: SourceView,
)
    requires
        r.username,
        r.user_session,
        !r.session,
        app.auth.username.value@.len() > 0,
        trim(app.auth.username.value@) == app.auth.username.value@,
        app.sessions.source is Session,
        app.sessions.source@->Session_0 < app.sessions.menu.options.len(),
        app.sessions.menu.options@[app.sessions.source@->Session_0].path is Some,
        app.sessions.menu.options@[app.sessions.source@->Session_0].path->0@.len() > 0,
        trim(app.sessions.menu.options@[app.sessions.source@->Session_0].path->0@)
            == app.sessions.menu.options@[app.sessions.source@->Session_0].path->0@,
    ensures
        ({
            let i = app.sessions.source@->Session_0;
            let options = app.sessions.menu.options@;
            let p = options[i].path->0@;
            let m2 = apply_ops(m, login_ops(r, app));
            let u = remembered_user(r, m2)->0;
            &&& u.value == app.auth.username.value@
            &&& !m2.contains_key(user_file("lastsession"@, app.auth.username.value@))
            &&& first_at(options, p) is Some
            &&& first_at(options, p)->0 <= i
            &&& restored_sessions(r, m2, u.value, src, app.sessions.menu.selected as int, options)
                == (SourceView::Session(first_at(options, p)->0), first_at(options, p)->0)
        }),
{
    law_user_round_trip(r, app, m);
    let i = app.sessions.source@->Session_0;
    let options = app.sessions.menu.options@;
    let p = options[i].path->0@;
    let v = app.auth.username.value@;
    let a = username_ops(app.auth.username@);
    let b = selection_ops(
        app.sessions.source@,
        options,
        user_file("lastsession"@, v),
        user_file("lastsession-path"@, v),
    );
    assert(login_ops(r, app) == a + b);
    lemma_apply_concat(m, a, b);
    lemma_names(v);
    let m1 = apply_ops(m, a);
    lemma_apply_two(m1, b[0], b[1]);
    assert(b == seq![b[0], b[1]]);
    let m2 = apply_ops(m, login_ops(r, app));
    assert(m2 == m1.insert(user_file("lastsession-path"@, v), p).remove(user_file("lastsession"@, v)));
    let u = remembered_user(r, m2)->0;
    assert(u.value == v);
    assert(read(m2, user_file("lastsession-path"@, v)) == Some(p));
    assert(read(m2, user_file("lastsession"@, v)) is None);
    assert(session_at(options[i], p));
    lemma_first_at_exists(options, p, i);
}

/// Restoring the remembered sessions a second time, from the same files
/// and for the same user, changes nothing more.
pub proof fn law_restore_idempotent(
    r: Remember,
    m: Map<Seq<char>, Seq<char>>,
    user: Seq<char>,
    src: SourceView,
    sel: int,
    options: Seq<Session>,
)
    ensures
        ({
            let (s1, k1) = restored_sessions(r, m, user, src, sel, options);
            restored_sessions(r, m, user, s1, k1, options) == (s1, k1)
        }),
{
}

// ---------------------------------------------------------------------------
// Editing
// ---------------------------------------------------------------------------

/// A key press with no modifier.
pub open spec fn plain_key(code: KeyCode) -> KeyEvent {
    KeyEvent { code, modifiers: 0 }
}

/// Moving the cursor left and then right gives back the state before.
pub proof fn law_left_right_undo(
    o: App,
    a1: App,
    a2: App,
    m: Map<Seq<char>, Seq<char>>,
    c1: KeyCommandView,
    c2: KeyCommandView,
    ops1: Seq<FileOpView>,
    ops2: Seq<FileOpView>,
)
    requires
        !o.working,
        o.auth.cursor_offset > i16::MIN,
        key_handled(o, a1, plain_key(KeyCode::Left), m, c1, ops1),
        key_handled(a1, a2, plain_key(KeyCode::Right), m, c2, ops2),
    ensures
        a2 == o,
        c1 == KeyCommandView::Nothing && c2 == KeyCommandView::Nothing,
        ops1.len() == 0 && ops2.len() == 0,
{
}

/// Typing a character at a cursor inside the text and then deleting the
/// character before the cursor gives back the text, with the cursor where
/// it was and all else unchanged.
pub proof fn law_insert_backspace_undo(
    o: App,
    a1: App,
    a2: App,
    c: char,
    m: Map<Seq<char>, Seq<char>>,
    c1: KeyCommandView,
    c2: KeyCommandView,
    ops1: Seq<FileOpView>,
    ops2: Seq<FileOpView>,
)
    requires
        !o.working,
        is_text_mode(o.auth.mode),
        edited_text(o).len() < i16::MAX,
        -(edited_text(o).len() as int) <= o.auth.cursor_offset <= 0,
        key_handled(o, a1, plain_key(KeyCode::Char(c)), m, c1, ops1),
        key_handled(a1, a2, plain_key(KeyCode::Backspace), m, c2, ops2),
    ensures
        text_changed(o, a2, o.auth.cursor_offset),
        edited_text(a2) == edited_text(o),
        c1 == KeyCommandView::Nothing && c2 == KeyCommandView::Nothing,
        ops1.len() == 0 && ops2.len() == 0,
{
    let e = edited_text(o);
    let p = e.len() + o.auth.cursor_offset;
    assert(edited_text(a1) == e.insert(p, c));
    assert(e.insert(p, c).remove(p) =~= e);
}

/// Opening the command editor and closing it with Escape gives back the
/// typed text and returns to the screen the editor was opened from, with
/// the cursor at the end.
pub proof fn law_command_menu_escape(
    o: App,
    a1: App,
    a2: App,
    m: Map<Seq<char>, Seq<char>>,
    c1: KeyCommandView,
    c2: KeyCommandView,
    ops1: Seq<FileOpView>,
    ops2: Seq<FileOpView>,
)
    requires
        !o.working,
        keybindings_distinct(o.config),
        key_handled(o, a1, plain_key(KeyCode::F(o.config.kb_command)), m, c1, ops1),
        key_handled(a1, a2, plain_key(KeyCode::Esc), m, c2, ops2),
    ensures
        ({
            let p = menu_prev(o.auth.mode, o.auth.previous_mode);
            a2 == App {
                auth: AuthState {
                    mode: p,
                    previous_mode: p,
                    previous_buffer: None,
                    cursor_offset: 0,
                    buffer: a2.auth.buffer,
                    ..o.auth
                },
                ..o
            }
        }),
        a2.auth.buffer@ == o.auth.buffer@,
        c1 == KeyCommandView::Nothing && c2 == KeyCommandView::Nothing,
        ops1.len() == 0 && ops2.len() == 0,
{
    assert(crate::config::keybindings(o.config)[0] == Some(o.config.kb_command));
}

/// In a menu, Tab and then Shift+Tab give back the selection.
pub proof fn law_tab_backtab_undo(
    o: App,
    a1: App,
    a2: App,
    m: Map<Seq<char>, Seq<char>>,
    c1: KeyCommandView,
    c2: KeyCommandView,
    ops1: Seq<FileOpView>,
    ops2: Seq<FileOpView>,
)
    requires
        !o.working,
        o.auth.mode == Mode::Users || o.auth.mode == Mode::Sessions || o.auth.mode == Mode::Power,
        menu_state(o).0 < menu_state(o).1,
        key_handled(o, a1, plain_key(KeyCode::Tab), m, c1, ops1),
        key_handled(a1, a2, plain_key(KeyCode::BackTab), m, c2, ops2),
    ensures
        a2 == o,
        c1 == KeyCommandView::Nothing && c2 == KeyCommandView::Nothing,
        ops1.len() == 0 && ops2.len() == 0,
{
}

/// When no function key is bound twice (as validated settings ensure),
/// each bound key does what it is bound to while the greeter is idle.
pub proof fn law_bound_keys_reach_their_action(app: App)
    requires
        !app.working,
        keybindings_distinct(app.config),
    ensures
        arm_of(app, plain_key(KeyCode::F(app.config.kb_command))) == Arm::CommandMenu,
        arm_of(app, plain_key(KeyCode::F(app.config.kb_sessions))) == Arm::SessionsMenu,
        arm_of(app, plain_key(KeyCode::F(app.config.kb_power))) == Arm::PowerMenu,
        app.config.kb_shutdown matches Some(k) ==> arm_of(app, plain_key(KeyCode::F(k)))
            == Arm::DirectPower(PowerOption::Shutdown),
        app.config.kb_reboot matches Some(k) ==> arm_of(app, plain_key(KeyCode::F(k)))
            == Arm::DirectPower(PowerOption::Reboot),
        app.config.kb_suspend matches Some(k) ==> arm_of(app, plain_key(KeyCode::F(k)))
            == Arm::DirectPower(PowerOption::Suspend),
        app.config.kb_hibernate matches Some(k) ==> arm_of(app, plain_key(KeyCode::F(k)))
            == Arm::DirectPower(PowerOption::Hibernate),
{
    let k = crate::config::keybindings(app.config);
    assert(k[0] == Some(app.config.kb_command));
    assert(k[1] == Some(app.config.kb_sessions));
    assert(k[2] == Some(app.config.kb_power));
    assert(k[3] == app.config.kb_shutdown);
    assert(k[4] == app.config.kb_reboot);
    assert(k[5] == app.config.kb_suspend);
    assert(k[6] == app.config.kb_hibernate);
}

/// A menu's selection is one of its entries, or the first place of an
/// empty menu.
pub open spec fn selection_in_menu(selected: usize, len: nat) -> bool {
    selected < len || selected == 0
}

/// Every menu's selection is one of its entries.
pub open spec fn menus_in_range(app: App) -> bool {
    &&& selection_in_menu(app.users.menu.selected, app.users.menu.options@.len())
    &&& selection_in_menu(app.sessions.menu.selected, app.sessions.menu.options@.len())
    &&& selection_in_menu(app.power.menu.selected, app.power.menu.options@.len())
}

proof fn lemma_first_at_in_range(options: Seq<Session>, p: Seq<char>)
    requires
        first_at(options, p) is Some,
    ensures
        0 <= first_at(options, p)->0 < options.len(),
{
    let i = choose|i: int| crate::sessions::is_first_at(options, p, i);
    assert(crate::sessions::is_first_at(options, p, i));
}

proof fn lemma_user_session_in_range(
    m: Map<Seq<char>, Seq<char>>,
    user: Seq<char>,
    src: SourceView,
    sel: int,
    options: Seq<Session>,
)
    requires
        0 <= sel,
        sel < options.len() || sel == 0,
    ensures
        0 <= after_user_session(m, user, src, sel, options).1,
        after_user_session(m, user, src, sel, options).1 < options.len()
            || after_user_session(m, user, src, sel, options).1 == 0,
{
    match read(m, user_file("lastsession-path"@, user)) {
        Some(p) => if first_at(options, p) is Some {
            lemma_first_at_in_range(options, p);
        },
        None => {},
    }
}

proof fn lemma_validated_keeps(
    mid: App,
    n: App,
    m: Map<Seq<char>, Seq<char>>,
    cmd: KeyCommandView,
    ops: Seq<FileOpView>,
)
    requires
        menus_in_range(mid),
        crate::keyboard::validated(mid, n, m, cmd, ops),
    ensures
        menus_in_range(n),
{
    lemma_user_session_in_range(
        m,
        mid.auth.username@.value,
        mid.sessions.source@,
        mid.sessions.menu.selected as int,
        mid.sessions.menu.options@,
    );
}

proof fn lemma_moved_keeps(o: App, n: App, kind: crate::keyboard::Step)
    requires
        menus_in_range(o),
        crate::keyboard::menu_moved(o, n, kind),
    ensures
        menus_in_range(n),
{
}

proof fn lemma_entered_keeps(
    o: App,
    n: App,
    m: Map<Seq<char>, Seq<char>>,
    cmd: KeyCommandView,
    ops: Seq<FileOpView>,
)
    requires
        menus_in_range(o),
        crate::keyboard::entered(o, n, m, cmd, ops),
    ensures
        menus_in_range(n),
{
    let prev = o.auth.previous_mode;
    match o.auth.mode {
        Mode::Username => if o.auth.username.value@.len() > 0 {
            lemma_validated_keeps(o, n, m, cmd, ops);
        },
        Mode::Users => {
            let sel = o.users.menu.selected as int;
            let opts = o.users.menu.options@;
            let mid = if sel < opts.len() {
                App {
                    auth: AuthState {
                        username: crate::masked::MaskedString { value: opts[sel].username, mask: opts[sel].name },
                        mode: prev,
                        ..o.auth
                    },
                    ..o
                }
            } else {
                App { auth: AuthState { mode: prev, ..o.auth }, ..o }
            };
            assert(menus_in_range(mid));
            lemma_validated_keeps(mid, n, m, cmd, ops);
        },
        _ => {},
    }
}

/// No key press takes a menu's selection off its entries.
pub proof fn law_keys_keep_selections(
    o: App,
    n: App,
    k: KeyEvent,
    m: Map<Seq<char>, Seq<char>>,
    cmd: KeyCommandView,
    ops: Seq<FileOpView>,
)
    requires
        menus_in_range(o),
        key_handled(o, n, k, m, cmd, ops),
    ensures
        menus_in_range(n),
{
    match arm_of(o, k) {
        Arm::Up => lemma_moved_keeps(o, n, crate::keyboard::Step::Up),
        Arm::Down => lemma_moved_keeps(o, n, crate::keyboard::Step::Down),
        Arm::BackTab => lemma_moved_keeps(o, n, crate::keyboard::Step::Prev),
        Arm::Tab => if o.auth.mode == Mode::Username && o.auth.username.value@.len() > 0 {
            lemma_validated_keeps(o, n, m, cmd, ops);
        } else {
            lemma_moved_keeps(o, n, crate::keyboard::Step::Next);
        },
        Arm::Enter => lemma_entered_keeps(o, n, m, cmd, ops),
        _ => {},
    }
}

/// The remember flags of the screen and the greeter's memory.
pub open spec fn remember_state(app: App) -> (bool, bool, bool, Remember) {
    (app.ui.remember, app.ui.remember_session, app.ui.remember_user_session, app.remember)
}

proof fn lemma_entered_flags(
    o: App,
    n: App,
    m: Map<Seq<char>, Seq<char>>,
    cmd: KeyCommandView,
    ops: Seq<FileOpView>,
)
    requires
        crate::keyboard::entered(o, n, m, cmd, ops),
    ensures
        remember_state(n) == remember_state(o),
{
    let prev = o.auth.previous_mode;
    match o.auth.mode {
        Mode::Users => {
            let sel = o.users.menu.selected as int;
            let opts = o.users.menu.options@;
            let mid = if sel < opts.len() {
                App {
                    auth: AuthState {
                        username: crate::masked::MaskedString { value: opts[sel].username, mask: opts[sel].name },
                        mode: prev,
                        ..o.auth
                    },
                    ..o
                }
            } else {
                App { auth: AuthState { mode: prev, ..o.auth }, ..o }
            };
            assert(remember_state(mid) == remember_state(o));
        },
        _ => {},
    }
}

/// While the screen's remember flags agree with the greeter's memory,
/// restoring by the flags is restoring by the memory; no key press makes
/// them disagree.
pub proof fn law_remember_flags_kept(
    o: App,
    n: App,
    k: KeyEvent,
    m: Map<Seq<char>, Seq<char>>,
    cmd: KeyCommandView,
    ops: Seq<FileOpView>,
)
    requires
        remember_flags_agree(o),
        key_handled(o, n, k, m, cmd, ops),
    ensures
        ui_remember(o) == o.remember,
        remember_flags_agree(n),
        n.remember == o.remember,
{
    match arm_of(o, k) {
        Arm::Enter => lemma_entered_flags(o, n, m, cmd, ops),
        Arm::Up => lemma_moved_flags(o, n, crate::keyboard::Step::Up),
        Arm::Down => lemma_moved_flags(o, n, crate::keyboard::Step::Down),
        Arm::BackTab => lemma_moved_flags(o, n, crate::keyboard::Step::Prev),
        Arm::Tab => if !(o.auth.mode == Mode::Username && o.auth.username.value@.len() > 0) {
            lemma_moved_flags(o, n, crate::keyboard::Step::Next);
        },
        _ => {},
    }
    assert(remember_state(n) == remember_state(o));
}

proof fn lemma_moved_flags(o: App, n: App, kind: crate::keyboard::Step)
    requires
        crate::keyboard::menu_moved(o, n, kind),
    ensures
        remember_state(n) == remember_state(o),
{
}

/// No answer from greetd changes what is remembered, or takes a menu's
/// selection off its entries.
pub proof fn law_greetd_keeps_memory(o: App, n: App, resp: GreetdResponseView, act: GreetdActionView)
    requires
        response_handled(o, n, resp, act),
    ensures
        remember_state(n) == remember_state(o),
        menus_in_range(o) ==> menus_in_range(n),
{
}

// ---------------------------------------------------------------------------
// Prompts and terminals
// ---------------------------------------------------------------------------

/// Showing a prompt that is already shown changes nothing.
pub proof fn law_prompt_idempotent(p: Seq<char>)
    ensures
        prompt_text(prompt_text(p)) == prompt_text(p),
{
}

/// After switching from the current terminal to another one at start-up,
/// the greeter switches back to the original terminal on exit; after
/// switching to the terminal it was on, it stays.
pub proof fn law_vt_switch_back(c: VtController, current: u32, target: u32)
    requires
        c.active_vt is None,
    ensures
        ({
            let (c1, w1) = vt_step(c, VtEvent::Current { current_vt: Some(current), preferred_vt: Some(target) });
            let (c2, w2) = vt_step(c1, VtEvent::Switched { vt: target, ok: true });
            &&& w1 == VtWork::SwitchTo(target)
            &&& w2 == VtWork::Done(Some(target))
            &&& switch_back(c2) == (if current != target { Some(current) } else { None })
        }),
{
}

/// A failed or skipped switch never leads to a switch back on exit.
pub proof fn law_vt_no_switch_no_return(c: VtController, current: Option<u32>, preferred: Option<u32>, target: u32)
    requires
        c.active_vt is None,
    ensures
        ({
            let (c1, _) = vt_step(c, VtEvent::Current { current_vt: current, preferred_vt: preferred });
            let (c2, w2) = vt_step(c1, VtEvent::Switched { vt: target, ok: false });
            &&& w2 == VtWork::Done(None)
            &&& switch_back(c2) is None
        }),
{
}

// ---------------------------------------------------------------------------
// What single keys are for
// ---------------------------------------------------------------------------

/// In an open menu, Up moves the selection one entry up, and keeps the
/// first entry selected at the first; the menu's entries, the screen and
/// the prompt state stay as they were.
pub proof fn law_up_moves_one_entry_up(
    o: App,
    n: App,
    m: Map<Seq<char>, Seq<char>>,
    cmd: KeyCommandView,
    ops: Seq<FileOpView>,
)
    requires
        !o.working,
        o.auth.mode == Mode::Users || o.auth.mode == Mode::Sessions || o.auth.mode == Mode::Power,
        key_handled(o, n, plain_key(KeyCode::Up), m, cmd, ops),
    ensures
        menu_state(n).0 == (if menu_state(o).0 > 0 { menu_state(o).0 - 1 } else { 0 }),
        menu_state(n).1 == menu_state(o).1,
        n.auth == o.auth,
        cmd == KeyCommandView::Nothing,
        ops.len() == 0,
{
}

/// In an open menu, Down and then Up from any entry but the last give the
/// selection back.
pub proof fn law_down_up_undo(
    o: App,
    a1: App,
    a2: App,
    m: Map<Seq<char>, Seq<char>>,
    c1: KeyCommandView,
    c2: KeyCommandView,
    ops1: Seq<FileOpView>,
    ops2: Seq<FileOpView>,
)
    requires
        !o.working,
        o.auth.mode == Mode::Users || o.auth.mode == Mode::Sessions || o.auth.mode == Mode::Power,
        menu_state(o).0 + 1 < menu_state(o).1,
        key_handled(o, a1, plain_key(KeyCode::Down), m, c1, ops1),
        key_handled(a1, a2, plain_key(KeyCode::Up), m, c2, ops2),
    ensures
        menu_state(a1).0 == menu_state(o).0 + 1,
        a2 == o,
{
}

/// In an open menu, Down moves the selection one entry down, and keeps the
/// last entry selected at the last; the screen and the prompt state stay
/// as they were.
pub proof fn law_down_moves_one_entry_down(
    o: App,
    n: App,
    m: Map<Seq<char>, Seq<char>>,
    cmd: KeyCommandView,
    ops: Seq<FileOpView>,
)
    requires
        !o.working,
        o.auth.mode == Mode::Users || o.auth.mode == Mode::Sessions || o.auth.mode == Mode::Power,
        key_handled(o, n, plain_key(KeyCode::Down), m, cmd, ops),
    ensures
        menu_state(n).0 == (if menu_state(o).0 + 1 < menu_state(o).1 {
            menu_state(o).0 + 1
        } else {
            menu_state(o).0
        }),
        menu_state(n).1 == menu_state(o).1,
        n.auth == o.auth,
        cmd == KeyCommandView::Nothing,
        ops.len() == 0,
{
}

/// In an open menu, Tab moves the selection one entry down, and from the
/// last entry wraps round to the first.
pub proof fn law_tab_cycles_down(
    o: App,
    n: App,
    m: Map<Seq<char>, Seq<char>>,
    cmd: KeyCommandView,
    ops: Seq<FileOpView>,
)
    requires
        !o.working,
        o.auth.mode == Mode::Users || o.auth.mode == Mode::Sessions || o.auth.mode == Mode::Power,
        key_handled(o, n, plain_key(KeyCode::Tab), m, cmd, ops),
    ensures
        menu_state(n).0 == (if menu_state(o).0 + 1 < menu_state(o).1 {
            menu_state(o).0 + 1
        } else {
            0
        }),
        menu_state(n).1 == menu_state(o).1,
        n.auth == o.auth,
        cmd == KeyCommandView::Nothing,
        ops.len() == 0,
{
}

/// In an open menu, Shift+Tab moves the selection one entry up, and from
/// the first entry wraps round to the last (an empty menu stays at 0).
pub proof fn law_backtab_cycles_up(
    o: App,
    n: App,
    m: Map<Seq<char>, Seq<char>>,
    cmd: KeyCommandView,
    ops: Seq<FileOpView>,
)
    requires
        !o.working,
        o.auth.mode == Mode::Users || o.auth.mode == Mode::Sessions || o.auth.mode == Mode::Power,
        key_handled(o, n, plain_key(KeyCode::BackTab), m, cmd, ops),
    ensures
        menu_state(n).0 == (if menu_state(o).0 > 0 {
            menu_state(o).0 - 1
        } else if menu_state(o).1 > 0 {
            menu_state(o).1 - 1
        } else {
            0
        }),
        menu_state(n).1 == menu_state(o).1,
        n.auth == o.auth,
        cmd == KeyCommandView::Nothing,
        ops.len() == 0,
{
}

/// The control-key bit pattern: Control held alone.
pub open spec fn control_only() -> u8 {
    0b0000_0010
}

/// On a screen with a text field, a character key that is not pressed with
/// Control alone (plain, or with Shift, Alt and the like) is typed: the
/// character goes into the edited text at the cursor (at the end when the
/// cursor lies outside the text), and nothing else changes.
pub proof fn law_character_keys_are_typed(
    o: App,
    n: App,
    c: char,
    modifiers: u8,
    m: Map<Seq<char>, Seq<char>>,
    cmd: KeyCommandView,
    ops: Seq<FileOpView>,
)
    requires
        !o.working,
        is_text_mode(o.auth.mode),
        modifiers != control_only(),
        edited_text(o).len() <= i16::MAX,
        key_handled(o, n, KeyEvent { code: KeyCode::Char(c), modifiers }, m, cmd, ops),
    ensures
        ({
            let e = edited_text(o);
            let at = e.len() + o.auth.cursor_offset;
            let p = if 0 <= at <= e.len() { at } else { e.len() as int };
            &&& edited_text(n) == e.take(p) + seq![c] + e.skip(p)
            &&& text_changed(o, n, o.auth.cursor_offset)
        }),
        cmd == KeyCommandView::Nothing,
        ops.len() == 0,
{
    let e = edited_text(o);
    let at = e.len() + o.auth.cursor_offset;
    let p = if 0 <= at <= e.len() { at } else { e.len() as int };
    assert((e.len() as i16) as int == e.len());
    assert(e.insert(p, c) =~= e.take(p) + seq![c] + e.skip(p));
}

/// The key `c` pressed with Control alone.
pub open spec fn control_key(c: char) -> KeyEvent {
    KeyEvent { code: KeyCode::Char(c), modifiers: control_only() }
}

/// On a screen with a text field, Control+U empties the edited text and
/// leaves the screen as it was.
pub proof fn law_control_u_clears_the_field(
    o: App,
    n: App,
    m: Map<Seq<char>, Seq<char>>,
    cmd: KeyCommandView,
    ops: Seq<FileOpView>,
)
    requires
        !o.working,
        is_text_mode(o.auth.mode),
        key_handled(o, n, control_key('u'), m, cmd, ops),
    ensures
        edited_text(n) == Seq::<char>::empty(),
        n.auth.mode == o.auth.mode,
        n.auth.cursor_offset == o.auth.cursor_offset,
        cmd == KeyCommandView::Nothing,
        ops.len() == 0,
{
}

/// On a screen with a text field, Control+A puts the cursor before the
/// first character and Control+E after the last; the text stays.
pub proof fn law_control_a_e_move_to_the_ends(
    o: App,
    a: App,
    e: App,
    m: Map<Seq<char>, Seq<char>>,
    ca: KeyCommandView,
    ce: KeyCommandView,
    opsa: Seq<FileOpView>,
    opse: Seq<FileOpView>,
)
    requires
        !o.working,
        is_text_mode(o.auth.mode),
        edited_text(o).len() <= i16::MAX,
        key_handled(o, a, control_key('a'), m, ca, opsa),
        key_handled(o, e, control_key('e'), m, ce, opse),
    ensures
        a.auth.cursor_offset == -(edited_text(o).len() as int),
        e.auth.cursor_offset == 0,
        edited_text(a) == edited_text(o),
        edited_text(e) == edited_text(o),
        a.auth.mode == o.auth.mode && e.auth.mode == o.auth.mode,
        ca == KeyCommandView::Nothing && ce == KeyCommandView::Nothing,
        opsa.len() == 0 && opse.len() == 0,
{
    assert((edited_text(o).len() as i16) as int == edited_text(o).len());
}

/// On a screen with a text field, Backspace removes the character before
/// the cursor and Delete the one under it (the cursor keeps its place
/// among the characters that stay); where there is no such character the
/// key changes nothing.
pub proof fn law_backspace_delete_remove_one(
    o: App,
    b: App,
    d: App,
    m: Map<Seq<char>, Seq<char>>,
    cb: KeyCommandView,
    cd: KeyCommandView,
    opsb: Seq<FileOpView>,
    opsd: Seq<FileOpView>,
)
    requires
        !o.working,
        is_text_mode(o.auth.mode),
        edited_text(o).len() <= i16::MAX,
        key_handled(o, b, plain_key(KeyCode::Backspace), m, cb, opsb),
        key_handled(o, d, plain_key(KeyCode::Delete), m, cd, opsd),
    ensures
        ({
            let t = edited_text(o);
            let at = t.len() + o.auth.cursor_offset;
            &&& if 0 < at <= t.len() {
                edited_text(b) == t.take(at - 1) + t.skip(at) && b.auth.cursor_offset == o.auth.cursor_offset
            } else {
                b == o
            }
            &&& if 0 <= at < t.len() {
                edited_text(d) == t.take(at) + t.skip(at + 1) && d.auth.cursor_offset == o.auth.cursor_offset + 1
            } else {
                d == o
            }
        }),
        cb == KeyCommandView::Nothing && cd == KeyCommandView::Nothing,
        opsb.len() == 0 && opsd.len() == 0,
{
    let t = edited_text(o);
    let at = t.len() + o.auth.cursor_offset;
    assert((t.len() as i16) as int == t.len());
    if 0 < at <= t.len() {
        assert(t.remove(at - 1) =~= t.take(at - 1) + t.skip(at));
    }
    if 0 <= at < t.len() {
        assert(t.remove(at) =~= t.take(at) + t.skip(at + 1));
    }
}

/// A command that a user logged in with, while per-user sessions are
/// remembered, is selected again when that user's name is submitted (by
/// Enter or Tab) on the name prompt, and greetd is asked for a session for
/// that user.
pub proof fn law_submitting_name_restores_user_command(
    login: App,
    m: Map<Seq<char>, Seq<char>>,
    o: App,
    n: App,
    key: KeyCode,
    cmd: KeyCommandView,
    ops: Seq<FileOpView>,
)
    requires
        login.remember.username,
        login.remember.user_session,
        login.auth.username.value@.len() > 0,
        trim(login.auth.username.value@) == login.auth.username.value@,
        login.sessions.source is Command,
        trim(login.sessions.source@->Command_0).len() > 0,
        o.remember.user_session,
        !o.working,
        o.auth.mode == Mode::Username,
        o.auth.username.value@ == login.auth.username.value@,
        key == KeyCode::Enter || key == KeyCode::Tab,
        key_handled(
            o,
            n,
            plain_key(key),
            apply_ops(m, login_ops(login.remember, login)),
            cmd,
            ops,
        ),
    ensures
        n.sessions.source@ == SourceView::Command(trim(login.sessions.source@->Command_0)),
        cmd == KeyCommandView::CreateSession(login.auth.username.value@),
        n.working,
        n.auth.username == o.auth.username,
        n.auth.mode == o.auth.mode,
        n.auth.buffer@ == Seq::<char>::empty(),
        n.ui.message is None,
        ops.len() == 0,
{
    let r = login.remember;
    let r2 = Remember { session: false, ..r };
    let u = login.auth.username.value@;
    let m2 = apply_ops(m, login_ops(r, login));
    assert(login_ops(r2, login) == login_ops(r, login));
    law_user_round_trip(r2, login, m);
    assert(remembered_user(r2, m2) is Some);
    assert(remembered_user(r2, m2)->0.value == u);
    law_user_command_round_trip(
        r2,
        login,
        m,
        o.sessions.source@,
        o.sessions.menu.selected as int,
        o.sessions.menu.options@,
    );
    assert(after_user_session(m2, u, o.sessions.source@, o.sessions.menu.selected as int, o.sessions.menu.options@)
        == restored_sessions(r2, m2, u, o.sessions.source@, o.sessions.menu.selected as int, o.sessions.menu.options@));
    assert(arm_of(o, plain_key(key)) == if key == KeyCode::Enter { Arm::Enter } else { Arm::Tab });
}

/// Without per-user sessions remembered, submitting a user name (by Enter
/// or Tab) keeps the selected session as it was and asks greetd for a
/// session for that name.
pub proof fn law_submitting_name_keeps_selection(
    o: App,
    n: App,
    m: Map<Seq<char>, Seq<char>>,
    key: KeyCode,
    cmd: KeyCommandView,
    ops: Seq<FileOpView>,
)
    requires
        !o.remember.user_session,
        !o.working,
        o.auth.mode == Mode::Username,
        o.auth.username.value@.len() > 0,
        key == KeyCode::Enter || key == KeyCode::Tab,
        key_handled(o, n, plain_key(key), m, cmd, ops),
    ensures
        n.sessions.source@ == o.sessions.source@,
        n.sessions.menu.selected == o.sessions.menu.selected,
        cmd == KeyCommandView::CreateSession(o.auth.username.value@),
        n.working,
        ops.len() == 0,
{
    assert(arm_of(o, plain_key(key)) == if key == KeyCode::Enter { Arm::Enter } else { Arm::Tab });
}

// ---------------------------------------------------------------------------
// Colors
// ---------------------------------------------------------------------------

/// The background sequence `ESC [ 4 n m` of ANSI color number `n`.
pub open spec fn ansi_bg(n: char) -> Seq<char> {
    seq!['\x1b', '[', '4', n, 'm']
}

/// Each basic color name paints the background with its ANSI color:
/// black 0, red 1, green 2, yellow 3, blue 4, magenta 5, cyan 6, white 7.
pub proof fn law_basic_background_colors()
    ensures
        bg_sequence(parse_color_spec(black_bytes())) == ansi_bg('0'),
        bg_sequence(parse_color_spec(red_bytes())) == ansi_bg('1'),
        bg_sequence(parse_color_spec(green_bytes())) == ansi_bg('2'),
        bg_sequence(parse_color_spec(yellow_bytes())) == ansi_bg('3'),
        bg_sequence(parse_color_spec(blue_bytes())) == ansi_bg('4'),
        bg_sequence(parse_color_spec(magenta_bytes())) == ansi_bg('5'),
        bg_sequence(parse_color_spec(cyan_bytes())) == ansi_bg('6'),
        bg_sequence(parse_color_spec(white_bytes())) == ansi_bg('7'),
{
    assert(black_bytes()[0] != green_bytes()[0]);
    assert(black_bytes()[0] != white_bytes()[0]);
    assert(green_bytes()[0] != white_bytes()[0]);
    assert(blue_bytes()[0] != cyan_bytes()[0]);
    assert(black_bytes() != red_bytes());
    assert(black_bytes() != yellow_bytes());
    assert(black_bytes() != blue_bytes());
    assert(black_bytes() != magenta_bytes());
    assert(black_bytes() != cyan_bytes());
    assert(red_bytes() != green_bytes());
    assert(red_bytes() != yellow_bytes());
    assert(red_bytes() != blue_bytes());
    assert(red_bytes() != magenta_bytes());
    assert(red_bytes() != cyan_bytes());
    assert(red_bytes() != white_bytes());
    assert(green_bytes() != yellow_bytes());
    assert(green_bytes() != blue_bytes());
    assert(green_bytes() != magenta_bytes());
    assert(green_bytes() != cyan_bytes());
    assert(yellow_bytes() != blue_bytes());
    assert(yellow_bytes() != magenta_bytes());
    assert(yellow_bytes() != cyan_bytes());
    assert(yellow_bytes() != white_bytes());
    assert(blue_bytes() != magenta_bytes());
    assert(blue_bytes() != white_bytes());
    assert(magenta_bytes() != cyan_bytes());
    assert(magenta_bytes() != white_bytes());
    assert(cyan_bytes() != white_bytes());
    assert(ansi_bg('0') =~= bg_sequence(Color::Black));
    assert(ansi_bg('1') =~= bg_sequence(Color::Red));
    assert(ansi_bg('2') =~= bg_sequence(Color::Green));
    assert(ansi_bg('3') =~= bg_sequence(Color::Yellow));
    assert(ansi_bg('4') =~= bg_sequence(Color::Blue));
    assert(ansi_bg('5') =~= bg_sequence(Color::Magenta));
    assert(ansi_bg('6') =~= bg_sequence(Color::Cyan));
    assert(ansi_bg('7') =~= bg_sequence(Color::White));
}

/// One of the eight basic color names.
pub open spec fn is_basic_name(b: Seq<u8>) -> bool {
    b == black_bytes() || b == red_bytes() || b == green_bytes() || b == yellow_bytes()
        || b == blue_bytes() || b == magenta_bytes() || b == cyan_bytes() || b == white_bytes()
}

/// Two different basic color names never paint the same background.
pub proof fn law_basic_backgrounds_differ(a: Seq<u8>, b: Seq<u8>)
    requires
        is_basic_name(a),
        is_basic_name(b),
        a != b,
    ensures
        bg_sequence(parse_color_spec(a)) != bg_sequence(parse_color_spec(b)),
{
    law_basic_background_colors();
    assert(ansi_bg('0')[3] == '0');
    assert(ansi_bg('1')[3] == '1');
    assert(ansi_bg('2')[3] == '2');
    assert(ansi_bg('3')[3] == '3');
    assert(ansi_bg('4')[3] == '4');
    assert(ansi_bg('5')[3] == '5');
    assert(ansi_bg('6')[3] == '6');
    assert(ansi_bg('7')[3] == '7');
}

proof fn lemma_first_index_after(k: Seq<char>, rest: Seq<char>, c: char)
    requires
        !k.contains(c),
    ensures
        first_index(k + seq![c] + rest, c) == Some(k.len() as int),
    decreases k.len(),
{
    if k.len() > 0 {
        assert(!k.drop_first().contains(c)) by {
            if k.drop_first().contains(c) {
                let j = choose|j: int| 0 <= j < k.drop_first().len() && k.drop_first()[j] == c;
                assert(k[j + 1] == c);
            }
        }
        assert((k + seq![c] + rest).drop_first() == k.drop_first() + seq![c] + rest);
        assert((k + seq![c] + rest)[0] == k[0]);
        lemma_first_index_after(k.drop_first(), rest, c);
    } else {
        assert((k + seq![c] + rest)[0] == c);
    }
}

proof fn lemma_split_without_separator(s: Seq<char>, sep: char)
    requires
        !s.contains(sep),
    ensures
        split_spec(s, sep) == seq![s],
    decreases s.len(),
{
    if s.len() > 0 {
        assert(!s.drop_last().contains(sep)) by {
            if s.drop_last().contains(sep) {
                let j = choose|j: int| 0 <= j < s.drop_last().len() && s.drop_last()[j] == sep;
                assert(s[j] == sep);
            }
        }
        lemma_split_without_separator(s.drop_last(), sep);
        assert(s.drop_last().push(s.last()) =~= s);
    } else {
        assert(s =~= Seq::<char>::empty());
    }
}

proof fn lemma_single_directive(k: Seq<char>, v: Seq<char>, c: Color)
    requires
        !k.contains('='),
        !k.contains(';'),
        !v.contains(';'),
        color_from_str_spec(v) == Some(c),
    ensures
        directives_applied(Theme::empty(), split_spec(k + seq!['='] + v, ';')) == with_key(Theme::empty(), k, c),
{
    let p = k + seq!['='] + v;
    assert(!p.contains(';')) by {
        if p.contains(';') {
            let j = choose|j: int| 0 <= j < p.len() && p[j] == ';';
            if j < k.len() {
                assert(k[j] == ';');
            } else if j > k.len() {
                assert(v[j - k.len() - 1] == ';');
            }
        }
    }
    lemma_split_without_separator(p, ';');
    lemma_first_index_after(k, v, '=');
    assert(p.take(k.len() as int) =~= k);
    assert(p.skip(k.len() as int + 1) =~= v);
    let pieces = seq![p];
    assert(pieces.drop_last() =~= Seq::<Seq<char>>::empty());
    assert(pieces.last() == p);
    assert(directive(p) == Some((k, v)));
    assert(directives_applied(Theme::empty(), Seq::<Seq<char>>::empty()) == Theme::empty());
    assert(split_spec(p, ';') == pieces);
    assert(directives_applied(Theme::empty(), pieces) == with_key(
        directives_applied(Theme::empty(), pieces.drop_last()),
        k,
        c,
    ));
}

/// The documented theme keys of equal length differ in their letters.
proof fn lemma_theme_keys_differ()
    ensures
        "text"@ != "time"@,
        "title"@ != "greet"@,
        "title"@ != "input"@,
        "greet"@ != "input"@,
        "border"@ != "prompt"@,
        "border"@ != "action"@,
        "border"@ != "button"@,
        "prompt"@ != "action"@,
        "prompt"@ != "button"@,
        "action"@ != "button"@,
{
    reveal_strlit("time");
    reveal_strlit("text");
    reveal_strlit("border");
    reveal_strlit("title");
    reveal_strlit("greet");
    reveal_strlit("prompt");
    reveal_strlit("input");
    reveal_strlit("action");
    reveal_strlit("button");
    assert("text"@[1] != "time"@[1]);
    assert("title"@[0] != "greet"@[0]);
    assert("title"@[0] != "input"@[0]);
    assert("greet"@[0] != "input"@[0]);
    assert("border"@[0] != "prompt"@[0]);
    assert("border"@[0] != "action"@[0]);
    assert("border"@[1] != "button"@[1]);
    assert("prompt"@[0] != "action"@[0]);
    assert("prompt"@[0] != "button"@[0]);
    assert("action"@[0] != "button"@[0]);
}

/// A `--theme` of one directive `key=color`, with a color that ratatui
/// reads, gives the named part that color: the container as its
/// background, every other part as its foreground.
pub proof fn law_theme_directive_sets_its_part(v: Seq<char>, c: Color)
    requires
        color_from_str_spec(v) == Some(c),
        !v.contains(';'),
    ensures
        theme_spec("container"@ + seq!['='] + v).container == Some((Component::Bg, c)),
        theme_spec("time"@ + seq!['='] + v).time == Some((Component::Fg, c)),
        theme_spec("text"@ + seq!['='] + v).text == Some((Component::Fg, c)),
        theme_spec("border"@ + seq!['='] + v).border == Some((Component::Fg, c)),
        theme_spec("title"@ + seq!['='] + v).title == Some((Component::Fg, c)),
        theme_spec("greet"@ + seq!['='] + v).greet == Some((Component::Fg, c)),
        theme_spec("prompt"@ + seq!['='] + v).prompt == Some((Component::Fg, c)),
        theme_spec("input"@ + seq!['='] + v).input == Some((Component::Fg, c)),
        theme_spec("action"@ + seq!['='] + v).action == Some((Component::Fg, c)),
        theme_spec("button"@ + seq!['='] + v).button == Some((Component::Fg, c)),
{
    reveal_strlit("container");
    reveal_strlit("time");
    reveal_strlit("text");
    reveal_strlit("border");
    reveal_strlit("title");
    reveal_strlit("greet");
    reveal_strlit("prompt");
    reveal_strlit("input");
    reveal_strlit("action");
    reveal_strlit("button");
    lemma_theme_keys_differ();
    assert(theme_spec("container"@ + seq!['='] + v).container == Some((Component::Bg, c))) by {
        lemma_single_directive("container"@, v, c);
    }
    assert(theme_spec("time"@ + seq!['='] + v).time == Some((Component::Fg, c))) by {
        lemma_single_directive("time"@, v, c);
    }
    assert(theme_spec("text"@ + seq!['='] + v).text == Some((Component::Fg, c))) by {
        lemma_single_directive("text"@, v, c);
    }
    assert(theme_spec("border"@ + seq!['='] + v).border == Some((Component::Fg, c))) by {
        lemma_single_directive("border"@, v, c);
    }
    assert(theme_spec("title"@ + seq!['='] + v).title == Some((Component::Fg, c))) by {
        lemma_single_directive("title"@, v, c);
    }
    assert(theme_spec("greet"@ + seq!['='] + v).greet == Some((Component::Fg, c))) by {
        lemma_single_directive("greet"@, v, c);
    }
    assert(theme_spec("prompt"@ + seq!['='] + v).prompt == Some((Component::Fg, c))) by {
        lemma_single_directive("prompt"@, v, c);
    }
    assert(theme_spec("input"@ + seq!['='] + v).input == Some((Component::Fg, c))) by {
        lemma_single_directive("input"@, v, c);
    }
    assert(theme_spec("action"@ + seq!['='] + v).action == Some((Component::Fg, c))) by {
        lemma_single_directive("action"@, v, c);
    }
    assert(theme_spec("button"@ + seq!['='] + v).button == Some((Component::Fg, c))) by {
        lemma_single_directive("button"@, v, c);
    }
}

/// A part that the theme leaves unset takes its fallback's color: the time
/// and the greeting that of the text, the title that of the border, the
/// buttons that of the actions.
pub proof fn law_theme_fallbacks(v: Seq<char>, c: Color)
    requires
        color_from_str_spec(v) == Some(c),
        !v.contains(';'),
    ensures
        theme_spec("text"@ + seq!['='] + v).time == Some((Component::Fg, c)),
        theme_spec("text"@ + seq!['='] + v).greet == Some((Component::Fg, c)),
        theme_spec("border"@ + seq!['='] + v).title == Some((Component::Fg, c)),
        theme_spec("action"@ + seq!['='] + v).button == Some((Component::Fg, c)),
{
    reveal_strlit("container");
    reveal_strlit("time");
    reveal_strlit("text");
    reveal_strlit("border");
    reveal_strlit("title");
    reveal_strlit("greet");
    reveal_strlit("prompt");
    reveal_strlit("input");
    reveal_strlit("action");
    reveal_strlit("button");
    lemma_theme_keys_differ();
    assert(theme_spec("text"@ + seq!['='] + v).time == Some((Component::Fg, c))) by {
        lemma_single_directive("text"@, v, c);
    }
    assert(theme_spec("text"@ + seq!['='] + v).greet == Some((Component::Fg, c))) by {
        lemma_single_directive("text"@, v, c);
    }
    assert(theme_spec("border"@ + seq!['='] + v).title == Some((Component::Fg, c))) by {
        lemma_single_directive("border"@, v, c);
    }
    assert(theme_spec("action"@ + seq!['='] + v).button == Some((Component::Fg, c))) by {
        lemma_single_directive("action"@, v, c);
    }
}

} // verus!
