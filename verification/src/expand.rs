//! Percent-expansions in command lines: `%p` and friends are replaced by
//! values drawn from the editor context; an uppercase selector abbreviates
//! the home directory to a tilde, and a doubled percent escapes the next
//! selector.

use vstd::prelude::*;
use crate::resolve::lang_or_default;
use crate::text::{parent_dir, stripped_path, strip_path_prefix, parent_dir_of};

verus! {

/// What the expansions read from the editor: the buffer's path and
/// language, the working directory, the repository root, and the home
/// directory.
pub struct ExpansionContext {
    pub buffer_path: Option<String>,
    pub cwd: String,
    pub language: Option<String>,
    pub git_root: Option<String>,
    pub home: Option<String>,
}

/// Mathematical image of an expansion context.
pub struct ExpansionSnap {
    pub buffer_path: Option<Seq<char>>,
    pub cwd: Seq<char>,
    pub language: Option<Seq<char>>,
    pub git_root: Option<Seq<char>>,
    pub home: Option<Seq<char>>,
}

impl View for ExpansionContext {
    type V = ExpansionSnap;

    open spec fn view(&self) -> ExpansionSnap {
        ExpansionSnap {
            buffer_path: match self.buffer_path {
                Some(p) => Some(p@),
                None => None,
            },
            cwd: self.cwd@,
            language: match self.language {
                Some(l) => Some(l@),
                None => None,
            },
            git_root: match self.git_root {
                Some(g) => Some(g@),
                None => None,
            },
            home: match self.home {
                Some(h) => Some(h@),
                None => None,
            },
        }
    }
}

/// The index of the last occurrence of `c` in `p`, or -1 when there is
/// none.
pub open spec fn last_index_of(p: Seq<char>, c: char) -> int
    decreases p.len(),
{
    if p.len() == 0 {
        -1
    } else if p.last() == c {
        p.len() - 1
    } else {
        last_index_of(p.drop_last(), c)
    }
}

/// Finds the last occurrence of `c` in `p`.
pub fn find_last(p: &str, c: char) -> (r: Option<usize>)
    ensures
        match r {
            Some(i) => i < p@.len() && last_index_of(p@, c) == i,
            None => last_index_of(p@, c) == -1,
        },
{
    let n = p.unicode_len();
    proof {
        assert(p@.subrange(0, n as int) =~= p@);
    }
    let mut i: usize = n;
    while i > 0
        invariant
            i <= n,
            n == p@.len(),
            last_index_of(p@, c) == last_index_of(p@.subrange(0, i as int), c),
        decreases i,
    {
        let ci = p.get_char(i - 1);
        proof {
            let sub = p@.subrange(0, i as int);
            assert(sub.last() == p@[i - 1]);
            assert(sub.drop_last() =~= p@.subrange(0, i as int - 1));
        }
        if ci == c {
            return Some(i - 1);
        }
        i = i - 1;
    }
    proof {
        assert(p@.subrange(0, 0) =~= Seq::<char>::empty());
    }
    None
}

/// The file name of a path: everything after the last slash, or the whole
/// path when it has none.
pub open spec fn file_name_of(p: Seq<char>) -> Seq<char> {
    if last_index_of(p, '/') == -1 {
        p
    } else {
        p.subrange(last_index_of(p, '/') + 1, p.len() as int)
    }
}

/// Reads the file name of a path.
pub fn file_name_str(p: &str) -> (r: String)
    ensures
        r@ == file_name_of(p@),
{
    match find_last(p, '/') {
        None => p.to_owned(),
        Some(i) => {
            let n = p.unicode_len();
            let rest = p.substring_char(i + 1, n);
            rest.to_owned()
        },
    }
}

/// The extension of a path: what follows the last dot of its file name;
/// empty when the file name has no dot or only a leading one.
pub open spec fn extension_of(p: Seq<char>) -> Seq<char> {
    let f = file_name_of(p);
    if last_index_of(f, '.') <= 0 {
        Seq::empty()
    } else {
        f.subrange(last_index_of(f, '.') + 1, f.len() as int)
    }
}

/// Reads the extension of a path.
pub fn extension_str(p: &str) -> (r: String)
    ensures
        r@ == extension_of(p@),
{
    let f = file_name_str(p);
    match find_last(f.as_str(), '.') {
        None => String::new(),
        Some(i) => {
            if i == 0 {
                String::new()
            } else {
                let n = f.as_str().unicode_len();
                let rest = f.as_str().substring_char(i + 1, n);
                rest.to_owned()
            }
        },
    }
}

/// The string with every occurrence of `pat` replaced by `sub`, scanning
/// left to right without overlap; an empty pattern replaces nothing.
pub open spec fn replaced_all(s: Seq<char>, pat: Seq<char>, sub: Seq<char>) -> Seq<char>
    decreases s.len(),
{
    if pat.len() == 0 {
        s
    } else if s.len() < pat.len() {
        s
    } else if s.subrange(0, pat.len() as int) == pat {
        sub + replaced_all(s.skip(pat.len() as int), pat, sub)
    } else {
        seq![s[0]] + replaced_all(s.skip(1), pat, sub)
    }
}

/// Whether `pat` occurs in `s` at position `i`.
fn match_at(s: &str, i: usize, pat: &str) -> (r: bool)
    requires
        i + pat@.len() <= s@.len(),
    ensures
        r == (s@.subrange(i as int, i as int + pat@.len() as int) == pat@),
{
    let sn = s.unicode_len();
    let pn = pat.unicode_len();
    let mut j: usize = 0;
    while j < pn
        invariant
            j <= pn,
            pn == pat@.len(),
            sn == s@.len(),
            i + pn <= sn,
            forall|k: int| 0 <= k < j ==> s@[i + k] == pat@[k],
        decreases pn - j,
    {
        if s.get_char(i + j) != pat.get_char(j) {
            proof {
                assert(s@.subrange(i as int, i as int + pn as int)[j as int] != pat@[j as int]);
            }
            return false;
        }
        j = j + 1;
    }
    proof {
        assert(s@.subrange(i as int, i as int + pn as int) =~= pat@);
    }
    true
}

/// Replaces every occurrence of `pat` in `s` by `sub`, left to right
/// without overlap.
pub fn replace_all(s: &str, pat: &str, sub: &str) -> (r: String)
    ensures
        r@ == replaced_all(s@, pat@, sub@),
{
    let pn = pat.unicode_len();
    if pn == 0 {
        return s.to_owned();
    }
    let sn = s.unicode_len();
    let mut out = String::new();
    let mut i: usize = 0;
    proof {
        assert(s@.skip(0) =~= s@);
    }
    while i < sn
        invariant
            i <= sn,
            sn == s@.len(),
            pn == pat@.len(),
            pn > 0,
            replaced_all(s@, pat@, sub@) == out@ + replaced_all(s@.skip(i as int), pat@, sub@),
        decreases sn - i,
    {
        let ghost rem = s@.skip(i as int);
        if sn - i >= pn && match_at(s, i, pat) {
            out.append(sub);
            proof {
                assert(rem.subrange(0, pn as int) =~= s@.subrange(i as int, i as int + pn as int));
                assert(rem.skip(pn as int) =~= s@.skip(i as int + pn as int));
            }
            i = i + pn;
        } else {
            let piece = s.substring_char(i, i + 1);
            out.append(piece);
            proof {
                assert(rem.len() > 0);
                assert(rem[0] == s@[i as int]);
                assert(rem.skip(1) =~= s@.skip(i as int + 1));
                assert(piece@ =~= seq![s@[i as int]]);
                if rem.len() >= pn {
                    assert(rem.subrange(0, pn as int) =~= s@.subrange(
                        i as int,
                        i as int + pn as int,
                    ));
                }
            }
            i = i + 1;
        }
    }
    proof {
        assert(s@.skip(sn as int) =~= Seq::<char>::empty());
    }
    out
}

/// The selectors that expand: path, relative path, extension, name, git
/// root, git-relative path, language, head directory, working directory.
pub open spec fn is_lower_selector(c: char) -> bool {
    c == 'p' || c == 'r' || c == 'e' || c == 'n' || c == 'g' || c == 'q' || c == 'l' || c == 'h'
        || c == 'w'
}

pub open spec fn is_upper_selector(c: char) -> bool {
    c == 'P' || c == 'R' || c == 'E' || c == 'N' || c == 'G' || c == 'Q' || c == 'L' || c == 'H'
        || c == 'W'
}

/// The lowercase form of a selector character.
pub open spec fn lower_selector(c: char) -> char {
    if c == 'P' {
        'p'
    } else if c == 'R' {
        'r'
    } else if c == 'E' {
        'e'
    } else if c == 'N' {
        'n'
    } else if c == 'G' {
        'g'
    } else if c == 'Q' {
        'q'
    } else if c == 'L' {
        'l'
    } else if c == 'H' {
        'h'
    } else if c == 'W' {
        'w'
    } else {
        c
    }
}

/// What a lowercase selector expands to.
pub open spec fn selector_replacement(c: char, ctx: ExpansionSnap) -> Seq<char> {
    if c == 'p' {
        match ctx.buffer_path {
            Some(p) => p,
            None => Seq::empty(),
        }
    } else if c == 'r' {
        match ctx.buffer_path {
            Some(p) => stripped_path(p, ctx.cwd),
            None => Seq::empty(),
        }
    } else if c == 'e' {
        match ctx.buffer_path {
            Some(p) => extension_of(p),
            None => Seq::empty(),
        }
    } else if c == 'n' {
        match ctx.buffer_path {
            Some(p) => file_name_of(p),
            None => Seq::empty(),
        }
    } else if c == 'g' {
        match ctx.git_root {
            Some(g) => g,
            None => Seq::empty(),
        }
    } else if c == 'q' {
        match ctx.buffer_path {
            Some(p) => match ctx.git_root {
                Some(g) => stripped_path(p, g),
                None => p,
            },
            None => Seq::empty(),
        }
    } else if c == 'l' {
        lang_or_default(ctx.language)
    } else if c == 'h' {
        match ctx.buffer_path {
            Some(p) => match parent_dir(p) {
                Some(d) => d,
                None => p,
            },
            None => Seq::empty(),
        }
    } else {
        ctx.cwd
    }
}

/// A replacement with the home directory abbreviated to a tilde, when a
/// non-empty home directory is known.
pub open spec fn home_abbreviated(rep: Seq<char>, home: Option<Seq<char>>) -> Seq<char> {
    match home {
        Some(h) => if h.len() > 0 {
            replaced_all(rep, h, seq!['~'])
        } else {
            rep
        },
        None => rep,
    }
}

/// The whole command line from position `i` on, expanded onto what is
/// already built. A selector after a literal percent is itself literal; an
/// uppercase selector abbreviates the home directory in its replacement.
pub open spec fn expand_from(s: Seq<char>, i: int, acc: Seq<char>, ctx: ExpansionSnap) -> Seq<
    char,
>
    decreases s.len() - i,
{
    if i < 0 || i >= s.len() {
        acc
    } else if s[i] != '%' {
        expand_from(s, i + 1, acc.push(s[i]), ctx)
    } else if i + 1 >= s.len() {
        expand_from(s, i + 1, acc.push('%'), ctx)
    } else {
        let nc = s[i + 1];
        if is_lower_selector(nc) || is_upper_selector(nc) {
            let piece = if acc.len() > 0 && acc.last() == '%' {
                seq![nc]
            } else if is_lower_selector(nc) {
                selector_replacement(nc, ctx)
            } else {
                home_abbreviated(selector_replacement(lower_selector(nc), ctx), ctx.home)
            };
            expand_from(s, i + 2, acc + piece, ctx)
        } else {
            expand_from(s, i + 1, acc.push('%'), ctx)
        }
    }
}

/// The command line with its percent-expansions applied.
pub open spec fn expanded(s: Seq<char>, ctx: ExpansionSnap) -> Seq<char> {
    expand_from(s, 0, Seq::empty(), ctx)
}

/// Reads a selector character: its lowercase form, and whether it was the
/// uppercase, home-abbreviating variant.
fn read_selector(c: char) -> (r: Option<(char, bool)>)
    ensures
        match r {
            Some(lu) => (is_lower_selector(c) || is_upper_selector(c)) && lu.0 == lower_selector(c)
                && lu.1 == is_upper_selector(c),
            None => !is_lower_selector(c) && !is_upper_selector(c),
        },
{
    if c == 'p' || c == 'r' || c == 'e' || c == 'n' || c == 'g' || c == 'q' || c == 'l' || c == 'h'
        || c == 'w' {
        Some((c, false))
    } else if c == 'P' {
        Some(('p', true))
    } else if c == 'R' {
        Some(('r', true))
    } else if c == 'E' {
        Some(('e', true))
    } else if c == 'N' {
        Some(('n', true))
    } else if c == 'G' {
        Some(('g', true))
    } else if c == 'Q' {
        Some(('q', true))
    } else if c == 'L' {
        Some(('l', true))
    } else if c == 'H' {
        Some(('h', true))
    } else if c == 'W' {
        Some(('w', true))
    } else {
        None
    }
}

/// Builds the replacement for a lowercase selector.
fn replacement_for(c: char, ctx: &ExpansionContext) -> (r: String)
    requires
        is_lower_selector(c),
    ensures
        r@ == selector_replacement(c, ctx@),
{
    if c == 'p' {
        match &ctx.buffer_path {
            Some(p) => p.clone(),
            None => String::new(),
        }
    } else if c == 'r' {
        match &ctx.buffer_path {
            Some(p) => strip_path_prefix(p.as_str(), ctx.cwd.as_str()),
            None => String::new(),
        }
    } else if c == 'e' {
        match &ctx.buffer_path {
            Some(p) => extension_str(p.as_str()),
            None => String::new(),
        }
    } else if c == 'n' {
        match &ctx.buffer_path {
            Some(p) => file_name_str(p.as_str()),
            None => String::new(),
        }
    } else if c == 'g' {
        match &ctx.git_root {
            Some(g) => g.clone(),
            None => String::new(),
        }
    } else if c == 'q' {
        match &ctx.buffer_path {
            Some(p) => match &ctx.git_root {
                Some(g) => strip_path_prefix(p.as_str(), g.as_str()),
                None => p.clone(),
            },
            None => String::new(),
        }
    } else if c == 'l' {
        match &ctx.language {
            Some(l) => l.clone(),
            None => "text".to_owned(),
        }
    } else if c == 'h' {
        match &ctx.buffer_path {
            Some(p) => match parent_dir_of(p.as_str()) {
                Some(d) => d,
                None => p.clone(),
            },
            None => String::new(),
        }
    } else {
        ctx.cwd.clone()
    }
}

/// Abbreviates the home directory in a replacement to a tilde.
fn abbreviate_home(rep: &str, ctx: &ExpansionContext) -> (r: String)
    ensures
        r@ == home_abbreviated(rep@, ctx@.home),
{
    match &ctx.home {
        Some(h) => {
            if h.as_str().unicode_len() > 0 {
                proof {
                    reveal_strlit("~");
                    assert("~"@ =~= seq!['~']);
                }
                replace_all(rep, h.as_str(), "~")
            } else {
                rep.to_owned()
            }
        },
        None => rep.to_owned(),
    }
}

/// Expands the percent-selectors of a command line against the editor
/// context.
pub fn expand_expansions(cmd: &str, ctx: &ExpansionContext) -> (r: String)
    ensures
        r@ == expanded(cmd@, ctx@),
{
    let n = cmd.unicode_len();
    let mut out = String::new();
    let mut i: usize = 0;
    while i < n
        invariant
            i <= n,
            n == cmd@.len(),
            expanded(cmd@, ctx@) == expand_from(cmd@, i as int, out@, ctx@),
        decreases n - i,
    {
        let ghost out0 = out@;
        let c = cmd.get_char(i);
        if c != '%' {
            let piece = cmd.substring_char(i, i + 1);
            out.append(piece);
            proof {
                assert(piece@ =~= seq![cmd@[i as int]]);
                assert(out@ =~= out0.push(cmd@[i as int]));
            }
            i = i + 1;
        } else if i + 1 >= n {
            let piece = cmd.substring_char(i, i + 1);
            out.append(piece);
            proof {
                assert(piece@ =~= seq![cmd@[i as int]]);
                assert(out@ =~= out0.push('%'));
            }
            i = i + 1;
        } else {
            let nc = cmd.get_char(i + 1);
            match read_selector(nc) {
                None => {
                    let piece = cmd.substring_char(i, i + 1);
                    out.append(piece);
                    proof {
                        assert(piece@ =~= seq![cmd@[i as int]]);
                        assert(out@ =~= out0.push('%'));
                    }
                    i = i + 1;
                },
                Some((low, upper)) => {
                    let ol = out.as_str().unicode_len();
                    let ends_pct = ol > 0 && out.as_str().get_char(ol - 1) == '%';
                    proof {
                        if out0.len() > 0 {
                            assert(out0.last() == out0[ol - 1]);
                        }
                    }
                    if ends_pct {
                        let piece = cmd.substring_char(i + 1, i + 2);
                        out.append(piece);
                        proof {
                            assert(piece@ =~= seq![cmd@[i as int + 1]]);
                            assert(out@ =~= out0 + seq![cmd@[i as int + 1]]);
                        }
                        i = i + 2;
                    } else {
                        let rep = replacement_for(low, ctx);
                        let piece = if upper {
                            abbreviate_home(rep.as_str(), ctx)
                        } else {
                            rep
                        };
                        out.append(piece.as_str());
                        proof {
                            if !upper {
                                assert(out@ =~= out0 + selector_replacement(nc, ctx@));
                            } else {
                                assert(out@ =~= out0 + home_abbreviated(
                                    selector_replacement(lower_selector(nc), ctx@),
                                    ctx@.home,
                                ));
                            }
                        }
                        i = i + 2;
                    }
                },
            }
        }
    }
    out
}

} // verus!
