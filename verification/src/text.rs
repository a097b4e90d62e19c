//! Plain string operations the commands need: prefix tests, stripping a
//! directory prefix off a path, and joining values with newlines.

use vstd::prelude::*;
use crate::util::str_concat;

verus! {

/// Whether `s` begins with `p`.
pub open spec fn starts_with(s: Seq<char>, p: Seq<char>) -> bool {
    s.len() >= p.len() && s.subrange(0, p.len() as int) == p
}

/// Tests whether `s` begins with `p`.
pub fn str_starts_with(s: &str, p: &str) -> (r: bool)
    ensures
        r == starts_with(s@, p@),
{
    let sn = s.unicode_len();
    let pn = p.unicode_len();
    if pn > sn {
        return false;
    }
    let mut i: usize = 0;
    while i < pn
        invariant
            i <= pn,
            pn <= sn,
            sn == s@.len(),
            pn == p@.len(),
            forall|j: int| 0 <= j < i ==> s@[j] == p@[j],
        decreases pn - i,
    {
        if s.get_char(i) != p.get_char(i) {
            proof {
                assert(s@.subrange(0, pn as int)[i as int] != p@[i as int]);
            }
            return false;
        }
        i = i + 1;
    }
    proof {
        assert(s@.subrange(0, pn as int) =~= p@);
    }
    true
}

/// A path with the given directory prefix removed: the empty string when the
/// path is the directory itself, the remainder after the separating slash
/// when the directory is a proper prefix, and the path unchanged otherwise.
pub open spec fn stripped_path(path: Seq<char>, base: Seq<char>) -> Seq<char> {
    if path == base {
        Seq::empty()
    } else if starts_with(path, base.push('/')) {
        path.subrange(base.len() as int + 1, path.len() as int)
    } else {
        path
    }
}

/// Removes a directory prefix from a path.
pub fn strip_path_prefix(path: &str, base: &str) -> (r: String)
    ensures
        r@ == stripped_path(path@, base@),
{
    if crate::util::str_eq(path, base) {
        return String::new();
    }
    let with_slash = str_concat(base, "/");
    proof {
        reveal_strlit("/");
        assert(with_slash@ =~= base@.push('/'));
    }
    if str_starts_with(path, with_slash.as_str()) {
        let bn = base.unicode_len();
        let pn = path.unicode_len();
        let rest = path.substring_char(bn + 1, pn);
        rest.to_owned()
    } else {
        path.to_owned()
    }
}

/// The values joined by single newlines.
pub open spec fn join_nl(vals: Seq<Seq<char>>) -> Seq<char>
    decreases vals.len(),
{
    if vals.len() == 0 {
        Seq::empty()
    } else if vals.len() == 1 {
        vals[0]
    } else {
        join_nl(vals.drop_last()) + seq!['\n'] + vals.last()
    }
}

/// Joins the values with newlines.
pub fn join_newline(vals: &Vec<String>) -> (r: String)
    ensures
        r@ == join_nl(vals.deep_view()),
{
    let mut r = String::new();
    let mut i: usize = 0;
    proof {
        reveal_strlit("\n");
    }
    while i < vals.len()
        invariant
            i <= vals@.len(),
            "\n"@ =~= seq!['\n'],
            r@ == join_nl(vals.deep_view().subrange(0, i as int)),
        decreases vals@.len() - i,
    {
        if i > 0 {
            r.append("\n");
        }
        r.append(vals[i].as_str());
        proof {
            let dv = vals.deep_view();
            let p = dv.subrange(0, i as int + 1);
            assert(p.drop_last() =~= dv.subrange(0, i as int));
            assert(p.last() == dv[i as int]);
            assert(dv[i as int] == vals@[i as int]@);
            if i == 0 {
                assert(r@ == join_nl(p));
            } else {
                assert(r@ == join_nl(p.drop_last()) + seq!['\n'] + p.last());
            }
        }
        i = i + 1;
    }
    proof {
        assert(vals.deep_view().subrange(0, vals@.len() as int) =~= vals.deep_view());
    }
    r
}

/// The index of the last slash in `p`, or -1 when there is none.
pub open spec fn last_slash(p: Seq<char>) -> int
    decreases p.len(),
{
    if p.len() == 0 {
        -1
    } else if p.last() == '/' {
        p.len() - 1
    } else {
        last_slash(p.drop_last())
    }
}

/// The directory containing a path, on plain strings: everything before the
/// last slash (the root stays `/`); a relative single component has the
/// empty parent; the root and the empty path have none.
pub open spec fn parent_dir(p: Seq<char>) -> Option<Seq<char>> {
    if p.len() == 0 || p == seq!['/'] {
        None
    } else if last_slash(p) == -1 {
        Some(Seq::empty())
    } else if last_slash(p) == 0 {
        Some(seq!['/'])
    } else {
        Some(p.subrange(0, last_slash(p)))
    }
}

/// The directory containing a path.
pub fn parent_dir_of(p: &str) -> (r: Option<String>)
    ensures
        match parent_dir(p@) {
            Some(d) => r matches Some(s) && s@ == d,
            None => r is None,
        },
{
    let n = p.unicode_len();
    if n == 0 {
        return None;
    }
    let c0 = p.get_char(0);
    if n == 1 && c0 == '/' {
        proof {
            assert(p@ =~= seq!['/']);
        }
        return None;
    }
    proof {
        assert(p@.subrange(0, n as int) =~= p@);
    }
    let mut i: usize = n;
    while i > 0
        invariant
            i <= n,
            n == p@.len(),
            p@.len() == 1 ==> p@[0] != '/',
            last_slash(p@) == last_slash(p@.subrange(0, i as int)),
        decreases i,
    {
        let c = p.get_char(i - 1);
        if c == '/' {
            proof {
                let sub = p@.subrange(0, i as int);
                assert(sub.last() == p@[i - 1]);
                assert(last_slash(sub) == i - 1);
            }
            if i - 1 == 0 {
                proof {
                    reveal_strlit("/");
                    assert("/"@ =~= seq!['/']);
                    assert(p@[0] == '/');
                    assert(p@.len() != 1);
                    assert(p@ != seq!['/']);
                }
                return Some("/".to_owned());
            }
            proof {
                assert(p@ != seq!['/']) by {
                    assert(last_slash(p@) > 0);
                    assert(last_slash(seq!['/']) == 0);
                }
            }
            let d = p.substring_char(0, i - 1);
            return Some(d.to_owned());
        }
        proof {
            let sub = p@.subrange(0, i as int);
            assert(sub.last() == p@[i - 1]);
            assert(sub.drop_last() =~= p@.subrange(0, i as int - 1));
        }
        i = i - 1;
    }
    proof {
        assert(p@.subrange(0, 0) =~= Seq::<char>::empty());
        assert(p@ != seq!['/']) by {
            assert(last_slash(p@) == -1);
            assert(last_slash(seq!['/']) == 0);
        }
    }
    Some(String::new())
}

/// A path with a leading tilde replaced by the home directory, when one is
/// known and the path is `~` or starts with `~/`.
pub open spec fn tilde_expanded(p: Seq<char>, home: Option<Seq<char>>) -> Seq<char> {
    match home {
        Some(h) => if p == seq!['~'] || (p.len() >= 2 && p[0] == '~' && p[1] == '/') {
            h + p.subrange(1, p.len() as int)
        } else {
            p
        },
        None => p,
    }
}

/// Expands a leading tilde against the home directory.
pub fn expand_tilde(p: &str, home: Option<&String>) -> (r: String)
    ensures
        r@ == tilde_expanded(p@, match home {
            Some(h) => Some(h@),
            None => None,
        }),
{
    let h = match home {
        Some(h) => h,
        None => {
            return p.to_owned();
        },
    };
    let n = p.unicode_len();
    let tilde_only = n == 1 && p.get_char(0) == '~';
    let tilde_slash = n >= 2 && p.get_char(0) == '~' && p.get_char(1) == '/';
    if tilde_only || tilde_slash {
        proof {
            if tilde_only {
                assert(p@ =~= seq!['~']);
            }
        }
        let rest = p.substring_char(1, n);
        str_concat(h.as_str(), rest)
    } else {
        proof {
            if n == 1 {
                assert(p@ != seq!['~']) by {
                    assert(p@[0] != '~');
                }
            }
        }
        p.to_owned()
    }
}

/// Whether the character is whitespace (the Unicode White_Space set).
pub open spec fn is_ws(c: char) -> bool {
    c == ' ' || c == '\t' || c == '\n' || c == '\r' || c == '\u{b}' || c == '\u{c}'
        || c == '\u{85}' || c == '\u{a0}' || c == '\u{1680}' || c == '\u{2000}'
        || c == '\u{2001}' || c == '\u{2002}' || c == '\u{2003}' || c == '\u{2004}'
        || c == '\u{2005}' || c == '\u{2006}' || c == '\u{2007}' || c == '\u{2008}'
        || c == '\u{2009}' || c == '\u{200a}' || c == '\u{2028}' || c == '\u{2029}'
        || c == '\u{202f}' || c == '\u{205f}' || c == '\u{3000}'
}

/// Tests whether the character is whitespace.
pub fn char_is_ws(c: char) -> (r: bool)
    ensures
        r == is_ws(c),
{
    c == ' ' || c == '\t' || c == '\n' || c == '\r' || c == '\u{b}' || c == '\u{c}'
        || c == '\u{85}' || c == '\u{a0}' || c == '\u{1680}' || c == '\u{2000}'
        || c == '\u{2001}' || c == '\u{2002}' || c == '\u{2003}' || c == '\u{2004}'
        || c == '\u{2005}' || c == '\u{2006}' || c == '\u{2007}' || c == '\u{2008}'
        || c == '\u{2009}' || c == '\u{200a}' || c == '\u{2028}' || c == '\u{2029}'
        || c == '\u{202f}' || c == '\u{205f}' || c == '\u{3000}'
}

/// The string without its leading whitespace.
pub open spec fn trim_start_spec(s: Seq<char>) -> Seq<char>
    decreases s.len(),
{
    if s.len() > 0 && is_ws(s[0]) {
        trim_start_spec(s.drop_first())
    } else {
        s
    }
}

/// The string without its trailing whitespace.
pub open spec fn trim_end_spec(s: Seq<char>) -> Seq<char>
    decreases s.len(),
{
    if s.len() > 0 && is_ws(s.last()) {
        trim_end_spec(s.drop_last())
    } else {
        s
    }
}

/// The string without leading and trailing whitespace.
pub open spec fn trim_spec(s: Seq<char>) -> Seq<char> {
    trim_end_spec(trim_start_spec(s))
}

/// Removes leading and trailing whitespace.
pub fn trim_ws(s: &str) -> (r: String)
    ensures
        r@ == trim_spec(s@),
{
    let n = s.unicode_len();
    let mut a: usize = 0;
    proof {
        assert(s@.skip(0) =~= s@);
    }
    while a < n && char_is_ws(s.get_char(a))
        invariant
            a <= n,
            n == s@.len(),
            trim_start_spec(s@) == trim_start_spec(s@.skip(a as int)),
        decreases n - a,
    {
        proof {
            assert(s@.skip(a as int).drop_first() =~= s@.skip(a as int + 1));
        }
        a = a + 1;
    }
    proof {
        assert(trim_start_spec(s@) == s@.skip(a as int));
        assert(s@.skip(a as int) =~= s@.subrange(a as int, n as int));
    }
    let mut b: usize = n;
    while b > a && char_is_ws(s.get_char(b - 1))
        invariant
            a <= b <= n,
            n == s@.len(),
            trim_spec(s@) == trim_end_spec(s@.subrange(a as int, b as int)),
        decreases b,
    {
        proof {
            let sub = s@.subrange(a as int, b as int);
            assert(sub.last() == s@[b - 1]);
            assert(sub.drop_last() =~= s@.subrange(a as int, b as int - 1));
        }
        b = b - 1;
    }
    proof {
        let sub = s@.subrange(a as int, b as int);
        if b > a {
            assert(sub.last() == s@[b - 1]);
        }
        assert(trim_end_spec(sub) == sub);
    }
    let piece = s.substring_char(a, b);
    piece.to_owned()
}

} // verus!
