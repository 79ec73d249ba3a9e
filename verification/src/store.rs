use vstd::prelude::*;

use crate::text::str_eq;

verus! {

/// The remembered files: each file name with its content.
#[derive(Debug)]
pub struct Store {
    entries: Vec<(String, String)>,
}

/// A change to the remembered files.
#[derive(Debug)]
pub enum FileOp {
    /// Write the content (second) to the file named first.
    Write(String, String),
    /// Delete the named file; a missing file is no error.
    Delete(String),
}

/// What a file change does.
pub enum FileOpView {
    Write(Seq<char>, Seq<char>),
    Delete(Seq<char>),
}

impl View for FileOp {
    type V = FileOpView;

    open spec fn view(&self) -> FileOpView {
        match self {
            FileOp::Write(n, c) => FileOpView::Write(n@, c@),
            FileOp::Delete(n) => FileOpView::Delete(n@),
        }
    }
}

/// What each change of a list does.
pub open spec fn op_views(ops: Seq<FileOp>) -> Seq<FileOpView> {
    ops.map_values(|o: FileOp| o@)
}

/// The files after one change.
pub open spec fn apply_op(m: Map<Seq<char>, Seq<char>>, op: FileOpView) -> Map<Seq<char>, Seq<char>> {
    match op {
        FileOpView::Write(n, c) => m.insert(n, c),
        FileOpView::Delete(n) => m.remove(n),
    }
}

/// The files after a list of changes, made in order.
pub open spec fn apply_ops(m: Map<Seq<char>, Seq<char>>, ops: Seq<FileOpView>) -> Map<
    Seq<char>,
    Seq<char>,
>
    decreases ops.len(),
{
    if ops.len() == 0 {
        m
    } else {
        apply_op(apply_ops(m, ops.drop_last()), ops.last())
    }
}

/// The map that a list of distinct-named entries describes.
pub open spec fn entries_map(s: Seq<(String, String)>) -> Map<Seq<char>, Seq<char>>
    decreases s.len(),
{
    if s.len() == 0 {
        Map::empty()
    } else {
        entries_map(s.drop_last()).insert(s.last().0@, s.last().1@)
    }
}

/// No file name occurs twice.
pub open spec fn distinct_names(s: Seq<(String, String)>) -> bool {
    forall|i: int, j: int| 0 <= i < j < s.len() ==> s[i].0@ != s[j].0@
}

proof fn lemma_entries_map(s: Seq<(String, String)>)
    requires
        distinct_names(s),
    ensures
        forall|i: int| 0 <= i < s.len() ==> #[trigger] entries_map(s).dom().contains(s[i].0@)
            && entries_map(s)[s[i].0@] == s[i].1@,
        forall|k: Seq<char>| #[trigger] entries_map(s).dom().contains(k)
            ==> exists|i: int| 0 <= i < s.len() && s[i].0@ == k,
    decreases s.len(),
{
    if s.len() > 0 {
        let p = s.drop_last();
        assert(distinct_names(p));
        lemma_entries_map(p);
        assert forall|i: int| 0 <= i < s.len() implies #[trigger] entries_map(s).dom().contains(
            s[i].0@,
        ) && entries_map(s)[s[i].0@] == s[i].1@ by {
            if i < s.len() - 1 {
                assert(p[i] == s[i]);
                assert(s[i].0@ != s.last().0@);
                assert(entries_map(p).dom().contains(p[i].0@));
            } else {
                assert(s[i] == s.last());
            }
        }
        assert forall|k: Seq<char>| #[trigger] entries_map(s).dom().contains(k) implies exists|
            i: int,
        | 0 <= i < s.len() && s[i].0@ == k by {
            if k != s.last().0@ {
                assert(entries_map(p).dom().contains(k));
                let i = choose|i: int| 0 <= i < p.len() && p[i].0@ == k;
                assert(s[i] == p[i]);
            } else {
                assert(s[s.len() - 1].0@ == k);
            }
        }
    }
}

impl View for Store {
    type V = Map<Seq<char>, Seq<char>>;

    closed spec fn view(&self) -> Map<Seq<char>, Seq<char>> {
        entries_map(self.entries@)
    }
}

impl Store {
    #[verifier::type_invariant]
    closed spec fn wf(self) -> bool {
        distinct_names(self.entries@)
    }

    /// No files.
    pub fn new() -> (r: Store)
        ensures
            r@ == Map::<Seq<char>, Seq<char>>::empty(),
    {
        Store { entries: Vec::new() }
    }

    fn find(&self, name: &str) -> (r: Option<usize>)
        ensures
            match r {
                Some(i) => i < self.entries@.len() && self.entries@[i as int].0@ == name@,
                None => forall|i: int| 0 <= i < self.entries@.len() ==> self.entries@[i].0@ != name@,
            },
    {
        let mut i: usize = 0;
        while i < self.entries.len()
            invariant
                i <= self.entries@.len(),
                forall|j: int| 0 <= j < i ==> self.entries@[j].0@ != name@,
            decreases self.entries.len() - i,
        {
            if str_eq(self.entries[i].0.as_str(), name) {
                return Some(i);
            }
            i += 1;
        }
        None
    }

    /// The content of the named file, if there is one.
    pub fn get(&self, name: &str) -> (r: Option<&String>)
        ensures
            match r {
                Some(c) => self@.contains_key(name@) && self@[name@] == c@,
                None => !self@.contains_key(name@),
            },
    {
        proof {
            use_type_invariant(self);
            lemma_entries_map(self.entries@);
        }
        match self.find(name) {
            Some(i) => {
                assert(self@.contains_key(self.entries@[i as int].0@));
                Some(&self.entries[i].1)
            },
            None => {
                proof {
                    if self@.contains_key(name@) {
                        let i = choose|i: int|
                            0 <= i < self.entries@.len() && self.entries@[i].0@ == name@;
                        assert(self.entries@[i].0@ != name@);
                    }
                }
                None
            },
        }
    }

    /// Sets the content of the named file.
    pub fn set(&mut self, name: String, content: String)
        ensures
            final(self)@ == old(self)@.insert(name@, content@),
    {
        proof {
            use_type_invariant(&*self);
        }
        let ghost old_entries = self.entries@;
        match self.find(name.as_str()) {
            Some(i) => {
                let ghost nv = name@;
                let ghost cv = content@;
                let mut entries: Vec<(String, String)> = Vec::new();
                std::mem::swap(&mut entries, &mut self.entries);
                entries.set(i, (name, content));
                let ghost ne = entries@;
                assert(distinct_names(ne)) by {
                    assert forall|a: int, b: int| 0 <= a < b < ne.len() implies ne[a].0@
                        != ne[b].0@ by {
                        if a != i && b != i {
                            assert(ne[a] == old_entries[a] && ne[b] == old_entries[b]);
                        } else if a == i {
                            assert(ne[b] == old_entries[b]);
                            assert(old_entries[i as int].0@ == nv);
                        } else {
                            assert(ne[a] == old_entries[a]);
                            assert(old_entries[i as int].0@ == nv);
                        }
                    }
                }
                proof {
                    lemma_entries_map(old_entries);
                    lemma_entries_map(ne);
                    assert(entries_map(ne) =~= entries_map(old_entries).insert(nv, cv)) by {
                        assert forall|k: Seq<char>| #[trigger] entries_map(ne).dom().contains(k)
                            == entries_map(old_entries).insert(nv, cv).dom().contains(k) by {
                            assert(ne[i as int].0@ == nv);
                            assert(entries_map(ne).dom().contains(ne[i as int].0@));
                            if entries_map(ne).dom().contains(k) {
                                let j = choose|j: int| 0 <= j < ne.len() && ne[j].0@ == k;
                                if j != i {
                                    assert(ne[j] == old_entries[j]);
                                }
                            }
                            if entries_map(old_entries).dom().contains(k) {
                                let j = choose|j: int|
                                    0 <= j < old_entries.len() && old_entries[j].0@ == k;
                                if j != i {
                                    assert(ne[j] == old_entries[j]);
                                    assert(entries_map(ne).dom().contains(ne[j].0@));
                                }
                            }
                        }
                        assert forall|k: Seq<char>| #[trigger]
                            entries_map(ne).dom().contains(k) implies entries_map(ne)[k]
                            == entries_map(old_entries).insert(nv, cv)[k] by {
                            let j = choose|j: int| 0 <= j < ne.len() && ne[j].0@ == k;
                            if j != i {
                                assert(ne[j] == old_entries[j]);
                            }
                        }
                    }
                }
                self.entries = entries;
            },
            None => {
                let ghost nv = name@;
                let ghost cv = content@;
                let mut entries: Vec<(String, String)> = Vec::new();
                std::mem::swap(&mut entries, &mut self.entries);
                entries.push((name, content));
                proof {
                    assert(entries@.drop_last() == old_entries);
                    assert(distinct_names(entries@));
                }
                self.entries = entries;
            },
        }
    }

    /// Removes the named file, if there is one.
    pub fn remove(&mut self, name: &str)
        ensures
            final(self)@ == old(self)@.remove(name@),
    {
        proof {
            use_type_invariant(&*self);
        }
        let ghost old_entries = self.entries@;
        proof {
            lemma_entries_map(old_entries);
        }
        match self.find(name) {
            Some(i) => {
                let mut entries: Vec<(String, String)> = Vec::new();
                std::mem::swap(&mut entries, &mut self.entries);
                entries.remove(i);
                let ghost ne = entries@;
                assert(ne == old_entries.remove(i as int));
                assert(distinct_names(ne)) by {
                    assert forall|a: int, b: int| 0 <= a < b < ne.len() implies ne[a].0@
                        != ne[b].0@ by {
                        let oa = if a < i { a } else { a + 1 };
                        let ob = if b < i { b } else { b + 1 };
                        assert(ne[a] == old_entries[oa]);
                        assert(ne[b] == old_entries[ob]);
                    }
                }
                proof {
                    lemma_entries_map(ne);
                    assert(entries_map(ne) =~= entries_map(old_entries).remove(name@)) by {
                        assert forall|k: Seq<char>| #[trigger] entries_map(ne).dom().contains(k)
                            == entries_map(old_entries).remove(name@).dom().contains(k) by {
                            if entries_map(ne).dom().contains(k) {
                                let j = choose|j: int| 0 <= j < ne.len() && ne[j].0@ == k;
                                let oj = if j < i { j } else { j + 1 };
                                assert(ne[j] == old_entries[oj]);
                            }
                            if entries_map(old_entries).remove(name@).dom().contains(k) {
                                let j = choose|j: int|
                                    0 <= j < old_entries.len() && old_entries[j].0@ == k;
                                assert(j != i);
                                let nj = if j < i { j } else { j - 1 };
                                assert(ne[nj] == old_entries[j]);
                            }
                        }
                        assert forall|k: Seq<char>| #[trigger]
                            entries_map(ne).dom().contains(k) implies entries_map(ne)[k]
                            == entries_map(old_entries).remove(name@)[k] by {
                            let j = choose|j: int| 0 <= j < ne.len() && ne[j].0@ == k;
                            let oj = if j < i { j } else { j + 1 };
                            assert(ne[j] == old_entries[oj]);
                        }
                    }
                }
                self.entries = entries;
            },
            None => {
                proof {
                    assert(entries_map(old_entries) =~= entries_map(old_entries).remove(name@)) by {
                        if entries_map(old_entries).dom().contains(name@) {
                            let j = choose|j: int|
                                0 <= j < old_entries.len() && old_entries[j].0@ == name@;
                            assert(old_entries[j].0@ != name@);
                        }
                    }
                }
            },
        }
    }

    /// Makes the given changes, in order.
    pub fn apply(&mut self, ops: &Vec<FileOp>)
        ensures
            final(self)@ == apply_ops(old(self)@, op_views(ops@)),
    {
        let mut i: usize = 0;
        while i < ops.len()
            invariant
                i <= ops.len(),
                self@ == apply_ops(old(self)@, op_views(ops@.take(i as int))),
            decreases ops.len() - i,
        {
            assert(op_views(ops@.take(i + 1)).drop_last() =~= op_views(ops@.take(i as int)));
            match &ops[i] {
                FileOp::Write(n, c) => self.set(n.clone(), c.clone()),
                FileOp::Delete(n) => self.remove(n.as_str()),
            }
            i += 1;
        }
        assert(ops@.take(ops.len() as int) == ops@);
    }
}

} // verus!
