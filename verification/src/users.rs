use vstd::prelude::*;

use crate::menu::MenuItem;
use crate::text::{chars_of, split_spec, split_strings, views};

verus! {

/// A user that can be picked from the user menu.
#[derive(Debug)]
pub struct User {
    pub username: String,
    pub name: Option<String>,
}

impl MenuItem for User {
    /// The shown name with the login name in brackets, or the login name.
    fn format(&self) -> (r: String)
        ensures
            r@ == match self.name {
                Some(n) => n@ + " ("@ + self.username@ + ")"@,
                None => self.username@,
            },
    {
        match &self.name {
            Some(name) => {
                let mut s = name.clone();
                crate::text::push_str(&mut s, " (");
                crate::text::push_str(&mut s, self.username.as_str());
                crate::text::push_str(&mut s, ")");
                s
            },
            None => self.username.clone(),
        }
    }
}

/// The number that a string of decimal digits writes, if it is one (at
/// least one digit, nothing else).
pub open spec fn decimal_value(s: Seq<char>) -> Option<int>
    decreases s.len(),
{
    if s.len() == 0 {
        None
    } else if !('0' <= s.last() <= '9') {
        None
    } else if s.len() == 1 {
        Some(s.last() as int - '0' as int)
    } else {
        match decimal_value(s.drop_last()) {
            Some(v) => Some(10 * v + (s.last() as int - '0' as int)),
            None => None,
        }
    }
}

proof fn lemma_decimal_nonneg(s: Seq<char>)
    requires
        decimal_value(s) is Some,
    ensures
        decimal_value(s)->0 >= 0,
    decreases s.len(),
{
    if s.len() > 1 {
        lemma_decimal_nonneg(s.drop_last());
    }
}

/// The number a string of decimal digits writes, when it is at most
/// `limit`.
fn decimal_at_most(s: &str, limit: u32) -> (r: Option<u32>)
    ensures
        match r {
            Some(v) => decimal_value(s@) == Some(v as int) && v <= limit,
            None => !(decimal_value(s@) is Some && decimal_value(s@)->0 <= limit),
        },
{
    let c = chars_of(s);
    if c.len() == 0 {
        return None;
    }
    let mut v: u32 = 0;
    let mut i: usize = 0;
    while i < c.len()
        invariant
            c@ == s@,
            c.len() > 0,
            i <= c.len(),
            v <= limit,
            i == 0 ==> v == 0,
            i > 0 ==> decimal_value(c@.take(i as int)) == Some(v as int),
        decreases c.len() - i,
    {
        let ch = c[i];
        assert(c@.take(i + 1).drop_last() == c@.take(i as int));
        assert(c@.take(i + 1).last() == ch);
        if !('0' <= ch && ch <= '9') {
            proof {
                lemma_no_digit_at(c@, i as int);
            }
            return None;
        }
        let d = (ch as u32) - ('0' as u32);
        if (v as u64) * 10 + (d as u64) > limit as u64 {
            proof {
                lemma_decimal_grows(c@, i as int, v as int, d as int, limit as int);
            }
            return None;
        }
        v = 10 * v + d;
        i += 1;
    }
    assert(c@.take(c.len() as int) == c@);
    Some(v)
}

proof fn lemma_no_digit_at(s: Seq<char>, i: int)
    requires
        0 <= i < s.len(),
        !('0' <= s[i] <= '9'),
    ensures
        decimal_value(s) is None,
    decreases s.len(),
{
    if i < s.len() - 1 {
        assert(s.drop_last()[i] == s[i]);
        lemma_no_digit_at(s.drop_last(), i);
    }
}

proof fn lemma_decimal_grows(s: Seq<char>, i: int, v: int, d: int, limit: int)
    requires
        0 <= i < s.len(),
        0 <= d <= 9,
        i == 0 ==> v == 0,
        i > 0 ==> decimal_value(s.take(i)) == Some(v),
        s[i] as int - '0' as int == d,
        v * 10 + d > limit,
        0 <= limit,
    ensures
        !(decimal_value(s) is Some && decimal_value(s)->0 <= limit),
    decreases s.len(),
{
    if i < s.len() - 1 {
        assert(s.drop_last().take(i) == s.take(i));
        assert(s.drop_last()[i] == s[i]);
        lemma_decimal_grows(s.drop_last(), i, v, d, limit);
        if decimal_value(s) is Some {
            lemma_decimal_nonneg(s.drop_last());
            lemma_decimal_nonneg(s);
        }
    } else {
        if i == 0 {
            assert(s.len() == 1);
        } else {
            assert(s.drop_last() == s.take(i));
        }
    }
}

/// The user that a line of the password file describes, when its id is in
/// `[min, max]`: the login name (first field) and, as the shown name, the
/// first comma-separated piece of the comment (fifth field) when it is not
/// empty. Lines with fewer than five fields, or an id that is not a
/// number, describe no user.
pub open spec fn passwd_user(line: Seq<char>, min: u32, max: u32) -> Option<(Seq<char>, Option<Seq<char>>)> {
    let f = split_spec(line, ':');
    if f.len() >= 5 && decimal_value(f[2]) is Some && min <= decimal_value(f[2])->0 <= max {
        let gecos = split_spec(f[4], ',')[0];
        Some((f[0], if gecos.len() > 0 { Some(gecos) } else { None }))
    } else {
        None
    }
}

/// The user that a line of the password file describes, if its id is in
/// the range.
pub fn user_from_passwd(line: &str, min: u32, max: u32) -> (r: Option<User>)
    ensures
        match passwd_user(line@, min, max) {
            Some((u, n)) => r is Some && r->0.username@ == u && match n {
                Some(n) => r->0.name is Some && r->0.name->0@ == n,
                None => r->0.name is None,
            },
            None => r is None,
        },
{
    let f = split_strings(line, ':');
    proof {
        crate::text::lemma_split_nonempty(line@, ':');
    }
    if f.len() < 5 {
        return None;
    }
    let uid = match decimal_at_most(f[2].as_str(), max) {
        Some(u) => u,
        None => return None,
    };
    if uid < min {
        return None;
    }
    let g = split_strings(f[4].as_str(), ',');
    proof {
        crate::text::lemma_split_nonempty(f@[4]@, ',');
    }
    assert(views(f@)[0] == f@[0]@);
    assert(views(f@)[2] == f@[2]@);
    assert(views(f@)[4] == f@[4]@);
    assert(views(g@)[0] == g@[0]@);
    let name = if chars_of(g[0].as_str()).len() > 0 {
        Some(g[0].clone())
    } else {
        None
    };
    Some(User { username: f[0].clone(), name })
}

/// The user menu's range of ids: the given bounds, or else 1000 and 60000.
pub fn uid_range(min: Option<u16>, max: Option<u16>) -> (r: (u32, u32))
    ensures
        r.0 == match min {
            Some(m) => m as u32,
            None => 1000u32,
        },
        r.1 == match max {
            Some(m) => m as u32,
            None => 60000u32,
        },
{
    let lo: u32 = match min {
        Some(m) => m as u32,
        None => 1000,
    };
    let hi: u32 = match max {
        Some(m) => m as u32,
        None => 60000,
    };
    (lo, hi)
}

} // verus!
