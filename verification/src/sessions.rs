use vstd::prelude::*;

use crate::menu::MenuItem;
use crate::paths::{same_path, same_path_spec};
use crate::state::App;

verus! {

/// Where the session to start comes from.
#[derive(Debug)]
pub enum SessionSource {
    /// No session chosen.
    Unset,
    DefaultCommand(String, Option<Vec<String>>),
    Command(String),
    Session(usize),
}

/// What a session source holds.
pub enum SourceView {
    Unset,
    DefaultCommand(Seq<char>, Option<Seq<Seq<char>>>),
    Command(Seq<char>),
    Session(int),
}

impl View for SessionSource {
    type V = SourceView;

    open spec fn view(&self) -> SourceView {
        match self {
            SessionSource::Unset => SourceView::Unset,
            SessionSource::DefaultCommand(c, e) => SourceView::DefaultCommand(
                c@,
                match e {
                    Some(v) => Some(crate::text::views(v@)),
                    None => None,
                },
            ),
            SessionSource::Command(c) => SourceView::Command(c@),
            SessionSource::Session(i) => SourceView::Session(*i as int),
        }
    }
}

/// The display label of a source: its command, or the name of the session
/// it points at.
pub open spec fn source_label(src: SourceView, options: Seq<Session>) -> Option<Seq<char>> {
    match src {
        SourceView::Unset => None,
        SourceView::DefaultCommand(c, _) => Some(c),
        SourceView::Command(c) => Some(c),
        SourceView::Session(i) => if 0 <= i < options.len() {
            Some(options[i].name@)
        } else {
            None
        },
    }
}

/// The command a source starts: its command, or the command of the session
/// it points at.
pub open spec fn source_command(src: SourceView, options: Seq<Session>) -> Option<Seq<char>> {
    match src {
        SourceView::Unset => None,
        SourceView::DefaultCommand(c, _) => Some(c),
        SourceView::Command(c) => Some(c),
        SourceView::Session(i) => if 0 <= i < options.len() {
            Some(options[i].command@)
        } else {
            None
        },
    }
}

/// A copy of a list of strings.
pub fn clone_strings(v: &Vec<String>) -> (r: Vec<String>)
    ensures
        r@ == v@,
{
    let mut r: Vec<String> = Vec::new();
    let mut i: usize = 0;
    while i < v.len()
        invariant
            i <= v.len(),
            r@ == v@.take(i as int),
        decreases v.len() - i,
    {
        r.push(v[i].clone());
        assert(v@.take(i + 1) == v@.take(i as int).push(v@[i as int]));
        i += 1;
    }
    assert(v@.take(v.len() as int) == v@);
    r
}

impl SessionSource {
    /// A human-readable label for the selected session.
    pub fn label<'g>(&'g self, app: &'g App) -> (r: Option<&'g str>)
        ensures
            match r {
                Some(s) => source_label(self@, app.sessions.menu.options@) == Some(s@),
                None => source_label(self@, app.sessions.menu.options@) is None,
            },
    {
        match self {
            SessionSource::Unset => None,
            SessionSource::DefaultCommand(command, _) => Some(command.as_str()),
            SessionSource::Command(command) => Some(command.as_str()),
            SessionSource::Session(index) => {
                if *index < app.sessions.menu.options.len() {
                    Some(app.sessions.menu.options[*index].name.as_str())
                } else {
                    None
                }
            },
        }
    }

    /// The command to spawn when the selected session is started.
    pub fn command<'g>(&'g self, app: &'g App) -> (r: Option<&'g str>)
        ensures
            match r {
                Some(s) => source_command(self@, app.sessions.menu.options@) == Some(s@),
                None => source_command(self@, app.sessions.menu.options@) is None,
            },
    {
        match self {
            SessionSource::Unset => None,
            SessionSource::DefaultCommand(command, _) => Some(command.as_str()),
            SessionSource::Command(command) => Some(command.as_str()),
            SessionSource::Session(index) => {
                if *index < app.sessions.menu.options.len() {
                    Some(app.sessions.menu.options[*index].command.as_str())
                } else {
                    None
                }
            },
        }
    }

    /// The environment given with the default command, if any.
    pub fn env(&self) -> (r: Option<Vec<String>>)
        ensures
            match self {
                SessionSource::DefaultCommand(_, Some(e)) => r is Some && r->0@ == e@,
                _ => r is None,
            },
    {
        match self {
            SessionSource::Unset => None,
            SessionSource::DefaultCommand(_, env) => match env {
                Some(e) => Some(clone_strings(e)),
                None => None,
            },
            SessionSource::Command(_) => None,
            SessionSource::Session(_) => None,
        }
    }
}

/// The XDG type of a session.
#[derive(Debug, Clone, Copy, PartialEq, Eq, Structural)]
pub enum SessionType {
    X11,
    Wayland,
    Tty,
    /// No type given.
    Unspecified,
}

impl Default for SessionType {
    fn default() -> (r: SessionType)
        ensures
            r == SessionType::Unspecified,
    {
        SessionType::Unspecified
    }
}

impl SessionType {
    /// The value of `XDG_SESSION_TYPE` for this type.
    pub fn as_xdg_session_type(&self) -> (r: &'static str)
        ensures
            r@ == match self {
                SessionType::X11 => "x11"@,
                SessionType::Wayland => "wayland"@,
                SessionType::Tty => "tty"@,
                SessionType::Unspecified => "unspecified"@,
            },
    {
        match self {
            SessionType::X11 => "x11",
            SessionType::Wayland => "wayland",
            SessionType::Tty => "tty",
            SessionType::Unspecified => "unspecified",
        }
    }
}

/// A session, as defined by an XDG session file.
#[derive(Debug)]
pub struct Session {
    pub slug: Option<String>,
    pub name: String,
    pub command: String,
    pub session_type: SessionType,
    pub path: Option<String>,
    pub xdg_desktop_names: Option<String>,
}

impl MenuItem for Session {
    fn format(&self) -> (r: String)
        ensures
            r@ == self.name@,
    {
        self.name.clone()
    }
}

/// The session's file is at `path`.
pub open spec fn session_at(s: Session, path: Seq<char>) -> bool {
    match s.path {
        Some(p) => same_path_spec(p@, path),
        None => false,
    }
}

/// `i` is the index of the first of `options` whose file is at `path`.
pub open spec fn is_first_at(options: Seq<Session>, path: Seq<char>, i: int) -> bool {
    &&& 0 <= i < options.len()
    &&& session_at(options[i], path)
    &&& forall|j: int| 0 <= j < i ==> !session_at(#[trigger] options[j], path)
}

/// The index of the first of `options` whose file is at `path`.
pub open spec fn first_at(options: Seq<Session>, path: Seq<char>) -> Option<int> {
    if exists|i: int| is_first_at(options, path, i) {
        Some(choose|i: int| is_first_at(options, path, i))
    } else {
        None
    }
}

proof fn lemma_first_at(options: Seq<Session>, path: Seq<char>, i: int)
    requires
        is_first_at(options, path, i),
    ensures
        first_at(options, path) == Some(i),
{
    let k = choose|k: int| is_first_at(options, path, k);
    assert(is_first_at(options, path, k));
    if k < i {
        assert(!session_at(options[k], path));
    }
    if i < k {
        assert(!session_at(options[i], path));
    }
}

/// When some session's file is at `path`, the first one is at or before it.
pub proof fn lemma_first_at_exists(options: Seq<Session>, path: Seq<char>, i: int)
    requires
        0 <= i < options.len(),
        session_at(options[i], path),
    ensures
        first_at(options, path) is Some,
        first_at(options, path)->0 <= i,
    decreases i,
{
    if exists|j: int| 0 <= j < i && session_at(#[trigger] options[j], path) {
        let j = choose|j: int| 0 <= j < i && session_at(#[trigger] options[j], path);
        lemma_first_at_exists(options, path, j);
    } else {
        assert(is_first_at(options, path, i));
        lemma_first_at(options, path, i);
    }
}

/// The position of the first session whose file is at `path`.
pub fn position_of(options: &Vec<Session>, path: &str) -> (r: Option<usize>)
    ensures
        match r {
            Some(i) => i < options.len() && first_at(options@, path@) == Some(i as int),
            None => first_at(options@, path@) is None,
        },
{
    let mut i: usize = 0;
    while i < options.len()
        invariant
            i <= options.len(),
            forall|j: int| 0 <= j < i ==> !session_at(#[trigger] options@[j], path@),
        decreases options.len() - i,
    {
        let hit = match &options[i].path {
            Some(p) => same_path(p.as_str(), path),
            None => false,
        };
        if hit {
            proof {
                lemma_first_at(options@, path@, i as int);
            }
            return Some(i);
        }
        i += 1;
    }
    None
}

impl Session {
    /// The first session whose file is at `path`.
    pub fn from_path<'a>(app: &'a App, path: &str) -> (r: Option<&'a Session>)
        ensures
            match first_at(app.sessions.menu.options@, path@) {
                Some(i) => r == Some(&app.sessions.menu.options@[i]),
                None => r is None,
            },
    {
        match position_of(&app.sessions.menu.options, path) {
            Some(i) => Some(&app.sessions.menu.options[i]),
            None => None,
        }
    }

    /// The session that the source points at, if it points at one.
    pub fn get_selected(app: &App) -> (r: Option<&Session>)
        ensures
            match app.sessions.source {
                SessionSource::Session(i) => if i < app.sessions.menu.options.len() {
                    r == Some(&app.sessions.menu.options@[i as int])
                } else {
                    r is None
                },
                _ => r is None,
            },
    {
        match app.sessions.source {
            SessionSource::Session(index) => {
                if index < app.sessions.menu.options.len() {
                    Some(&app.sessions.menu.options[index])
                } else {
                    None
                }
            },
            _ => None,
        }
    }
}

} // verus!
