use vstd::prelude::*;

use crate::text::{split_chars, split_spec, lemma_split_nonempty};

verus! {

/// The path starts at the root directory.
pub open spec fn rooted(s: Seq<char>) -> bool {
    s.len() > 0 && s[0] == '/'
}

/// The path starts with a `.` component.
pub open spec fn starts_at_cur_dir(s: Seq<char>) -> bool {
    split_spec(s, '/')[0] == seq!['.']
}

pub open spec fn is_normal_segment(p: Seq<char>) -> bool {
    p.len() > 0 && p != seq!['.']
}

/// The named components of a path: its `/`-separated pieces without the
/// empty ones and without `.`.
pub open spec fn normal_segments(s: Seq<char>) -> Seq<Seq<char>> {
    split_spec(s, '/').filter(|p: Seq<char>| is_normal_segment(p))
}

/// Two paths have the same components: both or neither start at the root,
/// both or neither start with `.`, and their named components are equal.
/// Repeated and trailing separators and inner `.` components make no
/// difference.
pub open spec fn same_path_spec(a: Seq<char>, b: Seq<char>) -> bool {
    &&& rooted(a) == rooted(b)
    &&& starts_at_cur_dir(a) == starts_at_cur_dir(b)
    &&& normal_segments(a) == normal_segments(b)
}

fn is_dot(p: &Vec<char>) -> (r: bool)
    ensures
        r == (p@ == seq!['.']),
{
    if p.len() == 1 && p[0] == '.' {
        assert(p@ =~= seq!['.']);
        true
    } else {
        false
    }
}

fn chars_eq(a: &Vec<char>, b: &Vec<char>) -> (r: bool)
    ensures
        r == (a@ == b@),
{
    if a.len() != b.len() {
        return false;
    }
    let mut i: usize = 0;
    while i < a.len()
        invariant
            a.len() == b.len(),
            i <= a.len(),
            forall|j: int| 0 <= j < i ==> a@[j] == b@[j],
        decreases a.len() - i,
    {
        if a[i] != b[i] {
            return false;
        }
        i += 1;
    }
    assert(a@ =~= b@);
    true
}

/// The facts about a path that its components depend on.
fn path_parts(s: &str) -> (r: (bool, bool, Vec<Vec<char>>))
    ensures
        r.0 == rooted(s@),
        r.1 == starts_at_cur_dir(s@),
        r.2@.map_values(|p: Vec<char>| p@) == normal_segments(s@),
{
    let pieces = split_chars(s, '/');
    let ghost segs = split_spec(s@, '/');
    proof {
        lemma_split_nonempty(s@, '/');
    }
    let root = pieces[0].len() == 0 && pieces.len() > 1;
    proof {
        lemma_rooted_first_piece(s@);
    }
    let cur = is_dot(&pieces[0]);
    let mut normals: Vec<Vec<char>> = Vec::new();
    let mut i: usize = 0;
    while i < pieces.len()
        invariant
            i <= pieces.len(),
            pieces@.map_values(|p: Vec<char>| p@) == segs,
            segs == split_spec(s@, '/'),
            normals@.map_values(|p: Vec<char>| p@) == segs.take(i as int).filter(
                |p: Seq<char>| is_normal_segment(p),
            ),
        decreases pieces.len() - i,
    {
        reveal_with_fuel(Seq::<_>::filter, 1);
        let ghost before = normals@.map_values(|p: Vec<char>| p@);
        assert(segs.take(i + 1).drop_last() == segs.take(i as int));
        assert(pieces@[i as int]@ == segs[i as int]);
        if pieces[i].len() > 0 && !is_dot(&pieces[i]) {
            normals.push(pieces[i].clone());
            assert(normals@.map_values(|p: Vec<char>| p@) =~= before.push(segs[i as int]));
        } else {
            assert(normals@.map_values(|p: Vec<char>| p@) =~= before);
        }
        i += 1;
    }
    assert(segs.take(pieces.len() as int) == segs);
    (root, cur, normals)
}

proof fn lemma_rooted_first_piece(s: Seq<char>)
    ensures
        rooted(s) == (split_spec(s, '/')[0].len() == 0 && split_spec(s, '/').len() > 1),
    decreases s.len(),
{
    lemma_split_nonempty(s, '/');
    if s.len() > 0 {
        lemma_rooted_first_piece(s.drop_last());
        lemma_split_nonempty(s.drop_last(), '/');
        lemma_split_first_stable(s.drop_last(), s);
        if s.len() == 1 {
            assert(s.drop_last().len() == 0);
        } else {
            assert(s.drop_last()[0] == s[0]);
        }
    }
}

/// Once a path has a separator, the first piece no longer grows.
proof fn lemma_split_first_stable(p: Seq<char>, s: Seq<char>)
    requires
        s.len() > 0,
        p == s.drop_last(),
    ensures
        split_spec(p, '/').len() > 1 ==> split_spec(s, '/')[0] == split_spec(p, '/')[0],
        split_spec(p, '/').len() == 1 && s.last() != '/' ==> split_spec(s, '/')[0] == p.push(s.last()),
        split_spec(p, '/').len() == 1 && s.last() == '/' ==> split_spec(s, '/')[0] == p,
        split_spec(p, '/').len() == 1 ==> split_spec(p, '/')[0] == p,
    decreases s.len(),
{
    lemma_split_nonempty(p, '/');
    lemma_split_single(p);
}

/// A piece list of length one holds the whole text.
proof fn lemma_split_single(p: Seq<char>)
    ensures
        split_spec(p, '/').len() == 1 ==> split_spec(p, '/')[0] == p,
    decreases p.len(),
{
    lemma_split_nonempty(p, '/');
    if p.len() > 0 {
        lemma_split_single(p.drop_last());
        lemma_split_nonempty(p.drop_last(), '/');
        if split_spec(p, '/').len() == 1 {
            assert(p.drop_last().push(p.last()) == p);
        }
    }
}

fn segments_eq(a: &Vec<Vec<char>>, b: &Vec<Vec<char>>) -> (r: bool)
    ensures
        r == (a@.map_values(|p: Vec<char>| p@) == b@.map_values(|p: Vec<char>| p@)),
{
    let ghost va = a@.map_values(|p: Vec<char>| p@);
    let ghost vb = b@.map_values(|p: Vec<char>| p@);
    if a.len() != b.len() {
        assert(va.len() != vb.len());
        return false;
    }
    let mut i: usize = 0;
    while i < a.len()
        invariant
            a.len() == b.len(),
            i <= a.len(),
            va == a@.map_values(|p: Vec<char>| p@),
            vb == b@.map_values(|p: Vec<char>| p@),
            forall|j: int| 0 <= j < i ==> va[j] == vb[j],
        decreases a.len() - i,
    {
        if !chars_eq(&a[i], &b[i]) {
            assert(va[i as int] != vb[i as int]);
            return false;
        }
        i += 1;
    }
    assert(va =~= vb);
    true
}

/// Whether two paths name the same place by their components, as path
/// equality does.
pub fn same_path(a: &str, b: &str) -> (r: bool)
    ensures
        r == same_path_spec(a@, b@),
{
    let (ra, ca, na) = path_parts(a);
    let (rb, cb, nb) = path_parts(b);
    ra == rb && ca == cb && segments_eq(&na, &nb)
}

} // verus!
