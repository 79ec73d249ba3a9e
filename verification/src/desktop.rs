use vstd::prelude::*;

use crate::sessions::{Session, SessionType};
use crate::state::App;
use crate::text::{chars_of, clone_opt, lit, split_spec, split_strings, string_from, views};

verus! {

/// The value of `key` on a line of the form `key=value`.
pub open spec fn key_value(line: Seq<char>, key: Seq<char>) -> Option<Seq<char>> {
    if line.len() > key.len() && line.take(key.len() as int) == key && line[key.len() as int] == '=' {
        Some(line.skip(key.len() as int + 1))
    } else {
        None
    }
}

/// The value of `key` on the first line that sets it.
pub open spec fn entry_value(lines: Seq<Seq<char>>, key: Seq<char>) -> Option<Seq<char>>
    decreases lines.len(),
{
    if lines.len() == 0 {
        None
    } else {
        match key_value(lines[0], key) {
            Some(v) => Some(v),
            None => entry_value(lines.drop_first(), key),
        }
    }
}

/// The session that a desktop entry describes: its `Name` and `Exec`
/// (both needed) and its `DesktopNames`, with the given file, slug and
/// kind of session.
pub open spec fn desktop_session_ok(
    content: Seq<char>,
    path: Seq<char>,
    slug: Seq<char>,
    kind: SessionType,
    r: Option<Session>,
) -> bool {
    let lines = split_spec(content, '\n');
    match (entry_value(lines, "Name"@), entry_value(lines, "Exec"@)) {
        (Some(name), Some(exec)) => match r {
            Some(s) => {
                &&& s.name@ == name
                &&& s.command@ == exec
                &&& s.session_type == kind
                &&& s.slug is Some && s.slug->0@ == slug
                &&& s.path is Some && s.path->0@ == path
                &&& match entry_value(lines, "DesktopNames"@) {
                    Some(d) => s.xdg_desktop_names is Some && s.xdg_desktop_names->0@ == d,
                    None => s.xdg_desktop_names is None,
                }
            },
            None => false,
        },
        _ => r is None,
    }
}

fn key_value_exec(line: &str, key: &str) -> (r: Option<String>)
    ensures
        match r {
            Some(v) => key_value(line@, key@) == Some(v@),
            None => key_value(line@, key@) is None,
        },
{
    let l = chars_of(line);
    let k = chars_of(key);
    if l.len() <= k.len() {
        return None;
    }
    let mut i: usize = 0;
    while i < k.len()
        invariant
            l@ == line@,
            k@ == key@,
            k.len() < l.len(),
            i <= k.len(),
            forall|j: int| 0 <= j < i ==> l@[j] == k@[j],
        decreases k.len() - i,
    {
        if l[i] != k[i] {
            assert(l@.take(k.len() as int)[i as int] != k@[i as int]);
            return None;
        }
        i += 1;
    }
    assert(l@.take(k.len() as int) =~= k@);
    if l[k.len()] != '=' {
        return None;
    }
    let mut v: Vec<char> = Vec::new();
    let mut j: usize = k.len() + 1;
    while j < l.len()
        invariant
            l@ == line@,
            k.len() + 1 <= j <= l.len(),
            v@ == l@.subrange(k.len() + 1, j as int),
        decreases l.len() - j,
    {
        v.push(l[j]);
        assert(l@.subrange(k.len() + 1, j + 1) == l@.subrange(k.len() + 1, j as int).push(l@[j as int]));
        j += 1;
    }
    assert(v@ =~= l@.skip(k.len() as int + 1));
    Some(string_from(&v))
}

fn find_value(lines: &Vec<String>, key: &str) -> (r: Option<String>)
    ensures
        match r {
            Some(v) => entry_value(views(lines@), key@) == Some(v@),
            None => entry_value(views(lines@), key@) is None,
        },
{
    let ghost all = views(lines@);
    let mut i: usize = 0;
    assert(all.skip(0) == all);
    while i < lines.len()
        invariant
            all == views(lines@),
            i <= lines.len(),
            entry_value(all, key@) == entry_value(all.skip(i as int), key@),
        decreases lines.len() - i,
    {
        let ghost rest = all.skip(i as int);
        assert(rest[0] == lines@[i as int]@);
        assert(rest.drop_first() == all.skip(i + 1));
        match key_value_exec(lines[i].as_str(), key) {
            Some(v) => return Some(v),
            None => {},
        }
        i += 1;
    }
    assert(all.skip(lines.len() as int).len() == 0);
    None
}

/// The session that a desktop entry describes, if it names one.
pub fn session_from_desktop(content: &str, path: &str, slug: &str, kind: SessionType) -> (r: Option<Session>)
    ensures
        desktop_session_ok(content@, path@, slug@, kind, r),
{
    let lines = split_strings(content, '\n');
    proof {
        reveal_strlit("Name");
        reveal_strlit("Exec");
        reveal_strlit("DesktopNames");
    }
    let name = find_value(&lines, "Name");
    let exec = find_value(&lines, "Exec");
    match (name, exec) {
        (Some(name), Some(command)) => {
            let desktops = find_value(&lines, "DesktopNames");
            Some(
                Session {
                    slug: Some(lit(slug)),
                    name,
                    command,
                    session_type: kind,
                    path: Some(lit(path)),
                    xdg_desktop_names: desktops,
                },
            )
        },
        _ => None,
    }
}

/// The directories whose desktop entries list the sessions: those the
/// settings give, or else the standard Wayland and X11 session directories.
pub open spec fn session_dirs_spec(paths: Seq<(Seq<char>, SessionType)>) -> Seq<(Seq<char>, SessionType)> {
    if paths.len() == 0 {
        seq![
            ("/usr/share/wayland-sessions"@, SessionType::Wayland),
            ("/usr/share/xsessions"@, SessionType::X11),
        ]
    } else {
        paths
    }
}

/// The directories to look for sessions in.
pub fn session_dirs(app: &App) -> (r: Vec<(String, SessionType)>)
    ensures
        crate::state::paths_view(r@) == session_dirs_spec(crate::state::paths_view(app.sessions.paths@)),
{
    let mut r: Vec<(String, SessionType)> = Vec::new();
    if app.sessions.paths.len() == 0 {
        r.push((lit("/usr/share/wayland-sessions"), SessionType::Wayland));
        r.push((lit("/usr/share/xsessions"), SessionType::X11));
        assert(crate::state::paths_view(r@) =~= session_dirs_spec(crate::state::paths_view(app.sessions.paths@)));
        return r;
    }
    let mut i: usize = 0;
    while i < app.sessions.paths.len()
        invariant
            i <= app.sessions.paths.len(),
            r.len() == i,
            crate::state::paths_view(r@) == crate::state::paths_view(app.sessions.paths@.take(i as int)),
        decreases app.sessions.paths.len() - i,
    {
        let (d, t) = &app.sessions.paths[i];
        let ghost before = r@;
        r.push((d.clone(), *t));
        assert(app.sessions.paths@.take(i + 1) =~= app.sessions.paths@.take(i as int).push(app.sessions.paths@[i as int]));
        assert(crate::state::paths_view(r@) =~= crate::state::paths_view(before).push((d@, *t)));
        assert(crate::state::paths_view(r@) =~= crate::state::paths_view(app.sessions.paths@.take(i + 1)));
        i += 1;
    }
    assert(app.sessions.paths@.take(i as int) == app.sessions.paths@);
    r
}

/// The extension of desktop entry files.
pub open spec fn desktop_ext() -> Seq<char> {
    seq!['.', 'd', 'e', 's', 'k', 't', 'o', 'p']
}

/// The slug of a file name: the name without its `.desktop` extension,
/// when it has that extension and something stands before it.
pub open spec fn desktop_slug(name: Seq<char>) -> Option<Seq<char>> {
    if name.len() > 8 && name.skip(name.len() - 8) == desktop_ext() {
        Some(name.take(name.len() - 8))
    } else {
        None
    }
}

/// `a` comes no later than `b` in the order of their characters' code
/// points, a prefix first.
pub open spec fn chars_le(a: Seq<char>, b: Seq<char>) -> bool
    decreases a.len(),
{
    if a.len() == 0 {
        true
    } else if b.len() == 0 {
        false
    } else if a[0] != b[0] {
        (a[0] as int) < (b[0] as int)
    } else {
        chars_le(a.drop_first(), b.drop_first())
    }
}

proof fn lemma_chars_le_total(a: Seq<char>, b: Seq<char>)
    ensures
        chars_le(a, b) || chars_le(b, a),
    decreases a.len(),
{
    if a.len() > 0 && b.len() > 0 && a[0] == b[0] {
        lemma_chars_le_total(a.drop_first(), b.drop_first());
    }
}

proof fn lemma_chars_le_trans(a: Seq<char>, b: Seq<char>, c: Seq<char>)
    requires
        chars_le(a, b),
        chars_le(b, c),
    ensures
        chars_le(a, c),
    decreases a.len(),
{
    if a.len() > 0 && b.len() > 0 && c.len() > 0 && a[0] == b[0] && b[0] == c[0] {
        lemma_chars_le_trans(a.drop_first(), b.drop_first(), c.drop_first());
    }
}

/// The names, in order, of the files among `names` that are desktop
/// entries.
pub open spec fn desktop_names(names: Seq<Seq<char>>) -> Seq<Seq<char>>
    decreases names.len(),
{
    if names.len() == 0 {
        Seq::empty()
    } else {
        let before = desktop_names(names.drop_last());
        if desktop_slug(names.last()) is Some {
            before.push(names.last())
        } else {
            before
        }
    }
}

/// The file names of a list of files and slugs.
pub open spec fn file_names(r: Seq<(String, String)>) -> Seq<Seq<char>> {
    r.map_values(|p: (String, String)| p.0@)
}

/// The desktop entries among the files of a directory, each with its slug,
/// in the order of their names: exactly the names that are desktop
/// entries, each as often as given.
pub open spec fn session_files_ok(names: Seq<Seq<char>>, r: Seq<(String, String)>) -> bool {
    &&& forall|i: int| 0 <= i < r.len() ==> desktop_slug(#[trigger] r[i].0@) == Some(r[i].1@)
    &&& forall|i: int, j: int| 0 <= i < j < r.len() ==> chars_le(#[trigger] r[i].0@, #[trigger] r[j].0@)
    &&& file_names(r).to_multiset() == desktop_names(names).to_multiset()
}

fn slug_of(name: &str) -> (r: Option<String>)
    ensures
        match r {
            Some(s) => desktop_slug(name@) == Some(s@),
            None => desktop_slug(name@) is None,
        },
{
    let c = chars_of(name);
    let ext: [char; 8] = ['.', 'd', 'e', 's', 'k', 't', 'o', 'p'];
    assert(ext@ == desktop_ext());
    if c.len() <= 8 {
        return None;
    }
    let start = c.len() - 8;
    let mut i: usize = 0;
    while i < 8
        invariant
            c@ == name@,
            start == c.len() - 8,
            c.len() > 8,
            ext@ == desktop_ext(),
            i <= 8,
            forall|j: int| 0 <= j < i ==> c@[start + j] == ext@[j],
        decreases 8 - i,
    {
        if c[start + i] != ext[i] {
            assert(c@.skip(start as int)[i as int] != desktop_ext()[i as int]);
            return None;
        }
        i += 1;
    }
    assert(c@.skip(start as int) =~= desktop_ext());
    let mut v: Vec<char> = Vec::new();
    let mut k: usize = 0;
    while k < start
        invariant
            c@ == name@,
            start < c.len(),
            k <= start,
            v@ == c@.take(k as int),
        decreases start - k,
    {
        v.push(c[k]);
        assert(c@.take(k + 1) == c@.take(k as int).push(c@[k as int]));
        k += 1;
    }
    Some(string_from(&v))
}

/// Whether `a` comes no later than `b`.
fn le_exec(a: &str, b: &str) -> (r: bool)
    ensures
        r == chars_le(a@, b@),
{
    let x = chars_of(a);
    let y = chars_of(b);
    let mut i: usize = 0;
    assert(x@.skip(0) == x@ && y@.skip(0) == y@);
    while i < x.len() && i < y.len() && x[i] == y[i]
        invariant
            x@ == a@,
            y@ == b@,
            i <= x.len(),
            i <= y.len(),
            chars_le(a@, b@) == chars_le(x@.skip(i as int), y@.skip(i as int)),
        decreases x.len() - i,
    {
        assert(x@.skip(i as int).drop_first() == x@.skip(i + 1));
        assert(y@.skip(i as int).drop_first() == y@.skip(i + 1));
        i += 1;
    }
    if i == x.len() {
        true
    } else if i == y.len() {
        false
    } else {
        assert(x@.skip(i as int)[0] == x@[i as int] && y@.skip(i as int)[0] == y@[i as int]);
        let (p, q) = (x[i], y[i]);
        p < q
    }
}

/// The desktop entries among the files of a directory, with their slugs,
/// in the order of their names.
pub fn session_files(names: &Vec<String>) -> (r: Vec<(String, String)>)
    ensures
        session_files_ok(views(names@), r@),
{
    let mut r: Vec<(String, String)> = Vec::new();
    let mut i: usize = 0;
    assert(views(names@).take(0) =~= Seq::<Seq<char>>::empty());
    assert(desktop_names(views(names@).take(0)) =~= Seq::<Seq<char>>::empty());
    assert(file_names(r@) =~= Seq::<Seq<char>>::empty());
    while i < names.len()
        invariant
            i <= names.len(),
            session_files_ok(views(names@).take(i as int), r@),
        decreases names.len() - i,
    {
        let ghost pre = views(names@).take(i as int);
        assert(views(names@).take(i + 1).drop_last() == pre);
        assert(views(names@).take(i + 1).last() == names@[i as int]@);
        match slug_of(names[i].as_str()) {
            Some(slug) => {
                let mut pos: usize = 0;
                while pos < r.len() && le_exec(r[pos].0.as_str(), names[i].as_str())
                    invariant
                        i < names.len(),
                        pos <= r.len(),
                        forall|k: int| 0 <= k < pos ==> chars_le(#[trigger] r@[k].0@, names@[i as int]@),
                    decreases r.len() - pos,
                {
                    pos += 1;
                }
                let ghost old_r = r@;
                let name = names[i].clone();
                proof {
                    if pos < old_r.len() {
                        lemma_chars_le_total(old_r[pos as int].0@, name@);
                    }
                    assert forall|k: int| pos <= k < old_r.len() implies chars_le(name@, #[trigger] old_r[k].0@) by {
                        if k > pos {
                            lemma_chars_le_trans(name@, old_r[pos as int].0@, old_r[k].0@);
                        }
                    }
                }
                r.insert(pos, (name, slug));
                proof {
                    let x = (names@[i as int], slug);
                    assert(r@ == old_r.insert(pos as int, r@[pos as int]));
                    assert(file_names(r@) =~= file_names(old_r).insert(pos as int, names@[i as int]@));
                    vstd::seq_lib::to_multiset_insert(file_names(old_r), pos as int, names@[i as int]@);
                    vstd::seq_lib::to_multiset_build(desktop_names(pre), names@[i as int]@);
                    assert forall|a: int, b: int| 0 <= a < b < r@.len() implies chars_le(
                        #[trigger] r@[a].0@,
                        #[trigger] r@[b].0@,
                    ) by {
                        if a < pos && b == pos {
                        } else if a < pos && b > pos {
                            lemma_chars_le_trans(r@[a].0@, name@, r@[b].0@);
                        } else if a == pos {
                        } else {
                        }
                    }
                }
            },
            None => {},
        }
        i += 1;
    }
    assert(views(names@).take(names.len() as int) == views(names@));
    r
}

} // verus!
