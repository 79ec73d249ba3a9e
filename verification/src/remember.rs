use vstd::prelude::*;
use crate::text::clone_opt;

use crate::masked::{MaskedString, MaskedView};
use crate::menu::Menu;
use crate::sessions::{first_at, position_of, Session, SessionSource, SourceView};
use crate::state::{App, AuthState, SessionState};
use crate::store::{FileOp, FileOpView, Store, op_views};
use crate::text::{push_str, trimmed_nonempty, trimmed_string};

verus! {

/// What the greeter remembers between runs, and where it keeps it.
#[derive(Debug)]
pub struct Remember {
    pub username: bool,
    pub session: bool,
    pub user_session: bool,
    pub data_dir: String,
}

/// The remembered value in the named file: its content without
/// surrounding white space, when anything else is left.
pub open spec fn read(m: Map<Seq<char>, Seq<char>>, name: Seq<char>) -> Option<Seq<char>> {
    if m.contains_key(name) {
        trimmed_nonempty(m[name])
    } else {
        None
    }
}

/// The name of a per-user file: the file's name, `-`, and the user.
pub open spec fn user_file(name: Seq<char>, user: Seq<char>) -> Seq<char> {
    name + seq!['-'] + user
}

/// The session source and menu selection restored from per-user files:
/// a remembered session file that names a listed session selects it, and a
/// remembered command overrides both.
pub open spec fn after_user_session(
    m: Map<Seq<char>, Seq<char>>,
    user: Seq<char>,
    src: SourceView,
    sel: int,
    options: Seq<Session>,
) -> (SourceView, int) {
    let (s1, k1) = match read(m, user_file("lastsession-path"@, user)) {
        Some(p) => match first_at(options, p) {
            Some(i) => (SourceView::Session(i), i),
            None => (src, sel),
        },
        None => (src, sel),
    };
    match read(m, user_file("lastsession"@, user)) {
        Some(c) => (SourceView::Command(c), k1),
        None => (s1, k1),
    }
}

/// The session source and menu selection restored from the global files:
/// a remembered command is taken, and a remembered session file that names a
/// listed session overrides it.
pub open spec fn after_global_session(
    m: Map<Seq<char>, Seq<char>>,
    src: SourceView,
    sel: int,
    options: Seq<Session>,
) -> (SourceView, int) {
    let s1 = match read(m, "lastsession"@) {
        Some(c) => SourceView::Command(c),
        None => src,
    };
    match read(m, "lastsession-path"@) {
        Some(p) => match first_at(options, p) {
            Some(i) => (SourceView::Session(i), i),
            None => (s1, sel),
        },
        None => (s1, sel),
    }
}

/// The remembered user, when remembering users is on and one is stored.
pub open spec fn remembered_user(r: Remember, m: Map<Seq<char>, Seq<char>>) -> Option<MaskedView> {
    if r.username && read(m, "lastuser"@) is Some {
        Some(MaskedView { value: read(m, "lastuser"@)->0, mask: read(m, "lastuser-name"@) })
    } else {
        None
    }
}

/// The session source and selection that `restore` leaves, given the login
/// name on the prompt once the user has been restored.
pub open spec fn restored_sessions(
    r: Remember,
    m: Map<Seq<char>, Seq<char>>,
    user: Seq<char>,
    src: SourceView,
    sel: int,
    options: Seq<Session>,
) -> (SourceView, int) {
    let (s1, k1) = if remembered_user(r, m) is Some && r.user_session {
        after_user_session(m, user, src, sel, options)
    } else {
        (src, sel)
    };
    if r.session {
        after_global_session(m, s1, k1, options)
    } else {
        (s1, k1)
    }
}

/// The changes that record a user.
pub open spec fn username_ops(u: MaskedView) -> Seq<FileOpView> {
    seq![FileOpView::Write("lastuser"@, u.value)] + match u.mask {
        Some(n) => seq![FileOpView::Write("lastuser-name"@, n)],
        None => seq![FileOpView::Delete("lastuser-name"@)],
    }
}

/// The changes that record a session choice in the given command and
/// session-file entries: a command replaces the session file, a listed
/// session with a file replaces the command, anything else records nothing.
pub open spec fn selection_ops(
    src: SourceView,
    options: Seq<Session>,
    cmd_file: Seq<char>,
    path_file: Seq<char>,
) -> Seq<FileOpView> {
    match src {
        SourceView::Command(c) => seq![
            FileOpView::Write(cmd_file, c),
            FileOpView::Delete(path_file),
        ],
        SourceView::Session(i) => if 0 <= i < options.len() && options[i].path is Some {
            seq![
                FileOpView::Write(path_file, options[i].path->0@),
                FileOpView::Delete(cmd_file),
            ]
        } else {
            seq![]
        },
        _ => seq![],
    }
}

/// The changes made when a login succeeds.
pub open spec fn login_ops(r: Remember, app: App) -> Seq<FileOpView> {
    if r.username {
        username_ops(app.auth.username@) + if r.user_session {
            let u = app.auth.username.value@;
            selection_ops(
                app.sessions.source@,
                app.sessions.menu.options@,
                user_file("lastsession"@, u),
                user_file("lastsession-path"@, u),
            )
        } else {
            seq![]
        }
    } else {
        seq![]
    }
}

/// The changes made when a session or command is chosen.
pub open spec fn select_ops(r: Remember, app: App) -> Seq<FileOpView> {
    if r.session {
        selection_ops(
            app.sessions.source@,
            app.sessions.menu.options@,
            "lastsession"@,
            "lastsession-path"@,
        )
    } else {
        seq![]
    }
}

/// The directory used when none is given.
pub const DEFAULT_DATA_DIR: &'static str = "/var/lib/greetui";

/// `dir` joined with `name`, as a path join does: a name that starts at the
/// root replaces the directory, and a separator is put between the two
/// unless the directory is empty or already ends with one.
pub open spec fn join_spec(dir: Seq<char>, name: Seq<char>) -> Seq<char> {
    if name.len() > 0 && name[0] == '/' {
        name
    } else if dir.len() == 0 || dir.last() == '/' {
        dir + name
    } else {
        dir + seq!['/'] + name
    }
}

fn owned(s: &str) -> (r: String)
    ensures
        r@ == s@,
{
    let mut r = String::new();
    push_str(&mut r, s);
    r
}

fn user_key(name: &str, user: &str) -> (r: String)
    ensures
        r@ == user_file(name@, user@),
{
    let mut r = owned(name);
    push_str(&mut r, "-");
    proof {
        reveal_strlit("-");
    }
    push_str(&mut r, user);
    r
}

impl Remember {
    pub open spec fn dir(self) -> Seq<char> {
        self.data_dir@
    }

    /// Remembers the chosen things in the default directory.
    pub fn new(username: bool, session: bool, user_session: bool) -> (r: Remember)
        ensures
            r.username == username,
            r.session == session,
            r.user_session == user_session,
            r.dir() == DEFAULT_DATA_DIR@,
    {
        Remember { username, session, user_session, data_dir: owned(DEFAULT_DATA_DIR) }
    }

    /// Remembers the chosen things in the given directory.
    pub fn new_with_dir(username: bool, session: bool, user_session: bool, data_dir: String) -> (r:
        Remember)
        ensures
            r.username == username,
            r.session == session,
            r.user_session == user_session,
            r.dir() == data_dir@,
    {
        Remember { username, session, user_session, data_dir }
    }

    /// The path of a remembered file.
    pub fn path(&self, name: &str) -> (r: String)
        ensures
            r@ == join_spec(self.dir(), name@),
    {
        let n = crate::text::chars_of(name);
        if n.len() > 0 && n[0] == '/' {
            return owned(name);
        }
        let d = crate::text::chars_of(self.data_dir.as_str());
        let mut r = self.data_dir.clone();
        if !(d.len() == 0 || d[d.len() - 1] == '/') {
            push_str(&mut r, "/");
            proof {
                reveal_strlit("/");
            }
        }
        push_str(&mut r, name);
        r
    }

    /// The path of a remembered per-user file.
    pub fn user_path(&self, name: &str, username: &str) -> (r: String)
        ensures
            r@ == join_spec(self.dir(), user_file(name@, username@)),
    {
        let k = user_key(name, username);
        self.path(k.as_str())
    }

    fn read_trimmed(&self, store: &Store, name: &str) -> (r: Option<String>)
        ensures
            match r {
                Some(s) => read(store@, name@) == Some(s@),
                None => read(store@, name@) is None,
            },
    {
        match store.get(name) {
            Some(c) => trimmed_string(c.as_str()),
            None => None,
        }
    }

    fn read_user(&self, store: &Store, name: &str, username: &str) -> (r: Option<String>)
        ensures
            match r {
                Some(s) => read(store@, user_file(name@, username@)) == Some(s@),
                None => read(store@, user_file(name@, username@)) is None,
            },
    {
        let k = user_key(name, username);
        self.read_trimmed(store, k.as_str())
    }

    /// Restores remembered state: the last user (and, when asked for, that
    /// user's last session) and the last session chosen by anyone.
    pub fn restore(&self, store: &Store, auth: &mut AuthState, sessions: &mut SessionState)
        ensures
            match remembered_user(*self, store@) {
                Some(u) => {
                    &&& final(auth).username@ == u
                    &&& *final(auth) == AuthState { username: final(auth).username, ..*old(auth) }
                },
                None => *final(auth) == *old(auth),
            },
            (final(sessions).source@, final(sessions).menu.selected as int) == restored_sessions(
                *self,
                store@,
                final(auth).username@.value,
                old(sessions).source@,
                old(sessions).menu.selected as int,
                old(sessions).menu.options@,
            ),
            *final(sessions) == (SessionState {
                source: final(sessions).source,
                menu: Menu { selected: final(sessions).menu.selected, ..old(sessions).menu },
                ..*old(sessions)
            }),
    {
        proof {
            reveal_strlit("lastuser");
            reveal_strlit("lastuser-name");
        }
        if self.username {
            if let Some(username) = self.read_trimmed(store, "lastuser") {
                let display_name = self.read_trimmed(store, "lastuser-name");
                auth.username = MaskedString::from(username, display_name);
                if self.user_session {
                    self.restore_user_session_for(store, auth, sessions);
                }
            }
        }
        if self.session {
            self.restore_global_session(store, sessions);
        }
    }

    /// Restores the current user's last session, when per-user sessions
    /// are remembered; the user itself is left as it is.
    pub fn restore_user_session(&self, store: &Store, auth: &mut AuthState, sessions: &mut SessionState)
        ensures
            *final(auth) == *old(auth),
            (final(sessions).source@, final(sessions).menu.selected as int) == (if self.user_session {
                after_user_session(
                    store@,
                    old(auth).username@.value,
                    old(sessions).source@,
                    old(sessions).menu.selected as int,
                    old(sessions).menu.options@,
                )
            } else {
                (old(sessions).source@, old(sessions).menu.selected as int)
            }),
            *final(sessions) == (SessionState {
                source: final(sessions).source,
                menu: Menu { selected: final(sessions).menu.selected, ..old(sessions).menu },
                ..*old(sessions)
            }),
    {
        if self.user_session {
            self.restore_user_session_for(store, auth, sessions);
        }
    }

    /// Restores the session remembered for the user whose login name the
    /// prompt holds, a command winning over a session file.
    pub fn restore_user_session_for(&self, store: &Store, auth: &AuthState, sessions: &mut SessionState)
        ensures
            (final(sessions).source@, final(sessions).menu.selected as int) == after_user_session(
                store@,
                auth.username@.value,
                old(sessions).source@,
                old(sessions).menu.selected as int,
                old(sessions).menu.options@,
            ),
            *final(sessions) == (SessionState {
                source: final(sessions).source,
                menu: Menu { selected: final(sessions).menu.selected, ..old(sessions).menu },
                ..*old(sessions)
            }),
    {
        let username = auth.username.value.as_str();
        if let Some(session_path) = self.read_user(store, "lastsession-path", username) {
            if let Some(index) = position_of(&sessions.menu.options, session_path.as_str()) {
                sessions.menu.selected = index;
                sessions.source = SessionSource::Session(index);
            }
        }
        if let Some(command) = self.read_user(store, "lastsession", username) {
            sessions.source = SessionSource::Command(command);
        }
    }

    /// Restores the session remembered for everyone, a session file winning
    /// over a command.
    pub fn restore_global_session(&self, store: &Store, sessions: &mut SessionState)
        ensures
            (final(sessions).source@, final(sessions).menu.selected as int) == after_global_session(
                store@,
                old(sessions).source@,
                old(sessions).menu.selected as int,
                old(sessions).menu.options@,
            ),
            *final(sessions) == (SessionState {
                source: final(sessions).source,
                menu: Menu { selected: final(sessions).menu.selected, ..old(sessions).menu },
                ..*old(sessions)
            }),
    {
        if let Some(command) = self.read_trimmed(store, "lastsession") {
            sessions.source = SessionSource::Command(command);
        }
        if let Some(session_path) = self.read_trimmed(store, "lastsession-path") {
            if let Some(index) = position_of(&sessions.menu.options, session_path.as_str()) {
                sessions.menu.selected = index;
                sessions.source = SessionSource::Session(index);
            }
        }
    }

    /// The changes to make when a login succeeds: the user, and, when asked
    /// for, the user's session choice.
    pub fn save_on_login(&self, app: &App) -> (r: Vec<FileOp>)
        ensures
            op_views(r@) == login_ops(*self, *app),
    {
        let mut ops: Vec<FileOp> = Vec::new();
        if self.username {
            self.write_username(&app.auth.username, &mut ops);
            if self.user_session {
                self.save_user_session(app, &mut ops);
            } else {
                assert(op_views(ops@) =~= username_ops(app.auth.username@) + seq![]);
            }
        } else {
            assert(op_views(ops@) =~= seq![]);
        }
        ops
    }

    /// The changes to make when a session or command is chosen, when the
    /// last session is remembered.
    pub fn save_on_session_select(&self, app: &App) -> (r: Vec<FileOp>)
        ensures
            op_views(r@) == select_ops(*self, *app),
    {
        let mut ops: Vec<FileOp> = Vec::new();
        if !self.session {
            assert(op_views(ops@) =~= seq![]);
            return ops;
        }
        Self::save_selection(app, "lastsession", "lastsession-path", &mut ops);
        assert(op_views(ops@) =~= select_ops(*self, *app));
        ops
    }

    fn save_selection(app: &App, cmd_file: &str, path_file: &str, ops: &mut Vec<FileOp>)
        ensures
            op_views(final(ops)@) == op_views(old(ops)@) + selection_ops(
                app.sessions.source@,
                app.sessions.menu.options@,
                cmd_file@,
                path_file@,
            ),
    {
        let ghost before = op_views(ops@);
        match &app.sessions.source {
            SessionSource::Command(command) => {
                ops.push(FileOp::Write(owned(cmd_file), command.clone()));
                ops.push(FileOp::Delete(owned(path_file)));
                assert(op_views(ops@) =~= before + selection_ops(
                    app.sessions.source@,
                    app.sessions.menu.options@,
                    cmd_file@,
                    path_file@,
                ));
            },
            SessionSource::Session(index) => {
                if *index < app.sessions.menu.options.len() {
                    if let Some(path) = &app.sessions.menu.options[*index].path {
                        ops.push(FileOp::Write(owned(path_file), path.clone()));
                        ops.push(FileOp::Delete(owned(cmd_file)));
                    }
                }
                assert(op_views(ops@) =~= before + selection_ops(
                    app.sessions.source@,
                    app.sessions.menu.options@,
                    cmd_file@,
                    path_file@,
                ));
            },
            _ => {
                assert(op_views(ops@) =~= before + selection_ops(
                    app.sessions.source@,
                    app.sessions.menu.options@,
                    cmd_file@,
                    path_file@,
                ));
            },
        }
    }

    fn save_user_session(&self, app: &App, ops: &mut Vec<FileOp>)
        ensures
            op_views(final(ops)@) == op_views(old(ops)@) + selection_ops(
                app.sessions.source@,
                app.sessions.menu.options@,
                user_file("lastsession"@, app.auth.username.value@),
                user_file("lastsession-path"@, app.auth.username.value@),
            ),
    {
        let username = app.auth.username.value.as_str();
        let cmd_file = user_key("lastsession", username);
        let path_file = user_key("lastsession-path", username);
        Self::save_selection(app, cmd_file.as_str(), path_file.as_str(), ops);
    }

    /// Adds the writes that remember a user name (and its shown name).
    pub fn write_username(&self, username: &MaskedString, ops: &mut Vec<FileOp>)
        ensures
            op_views(final(ops)@) == op_views(old(ops)@) + username_ops(username@),
    {
        let ghost before = op_views(ops@);
        ops.push(FileOp::Write(owned("lastuser"), username.value.clone()));
        match &username.mask {
            Some(name) => ops.push(FileOp::Write(owned("lastuser-name"), name.clone())),
            None => ops.push(FileOp::Delete(owned("lastuser-name"))),
        }
        assert(op_views(ops@) =~= before + username_ops(username@));
    }
}

} // verus!
