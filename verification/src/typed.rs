//! Helpers behind the typed commands: echoing arguments, picking the n-th
//! buffer, rendering the file listing of a directory walk, and normalising
//! an external formatter's output.

use vstd::prelude::*;
use crate::digits::{all_digits, dec_value, parse_usize};
use crate::text::{strip_path_prefix, stripped_path, trim_spec, trim_ws};
use crate::util::{str_concat, str_eq};

verus! {

/// The arguments folded into one line: a space before each argument that
/// follows a non-empty prefix.
pub open spec fn echo_join(vals: Seq<Seq<char>>) -> Seq<char>
    decreases vals.len(),
{
    if vals.len() == 0 {
        Seq::empty()
    } else {
        let acc = echo_join(vals.drop_last());
        if acc.len() == 0 {
            vals.last()
        } else {
            acc + seq![' '] + vals.last()
        }
    }
}

/// Joins the command's arguments into the line it echoes and yanks.
pub fn echopy(args: &Vec<String>) -> (r: String)
    ensures
        r@ == echo_join(args.deep_view()),
{
    let mut out = String::new();
    let mut i: usize = 0;
    proof {
        reveal_strlit(" ");
    }
    while i < args.len()
        invariant
            i <= args@.len(),
            " "@ =~= seq![' '],
            out@ == echo_join(args.deep_view().subrange(0, i as int)),
        decreases args@.len() - i,
    {
        let ghost dv = args.deep_view();
        if !out.as_str().is_empty() {
            out.append(" ");
        }
        out.append(args[i].as_str());
        proof {
            let p = dv.subrange(0, i as int + 1);
            assert(p.drop_last() =~= dv.subrange(0, i as int));
            assert(p.last() == dv[i as int]);
            assert(dv[i as int] == args@[i as int]@);
        }
        i = i + 1;
    }
    proof {
        assert(args.deep_view().subrange(0, args@.len() as int) =~= args.deep_view());
    }
    out
}

/// Picks the position of the n-th buffer, counting from one, from the front
/// or — with the reverse flag — from the back; rejects a missing or
/// non-numeric argument, zero, and a count past the open buffers.
pub fn buffer_nth(arg: Option<&str>, reverse: bool, doc_count: usize) -> (r: Result<usize, String>)
    ensures
        match arg {
            None => r matches Err(m) && m@ == "no arguments provided"@,
            Some(a) => if a@.len() == 0 || !all_digits(a@) || dec_value(a@) > usize::MAX {
                r matches Err(m) && m@ == "provided argument is not an integer"@
            } else if dec_value(a@) == 0 {
                r matches Err(m) && m@ == "the buffer number may not be zero"@
            } else if dec_value(a@) > doc_count {
                r matches Err(m) && m@ == "buffer "@ + a@ + " is out of range"@
            } else {
                r matches Ok(i) && i == if reverse {
                    doc_count - dec_value(a@)
                } else {
                    dec_value(a@) - 1
                }
            },
        },
{
    let a = match arg {
        Some(a) => a,
        None => {
            return Err("no arguments provided".to_owned());
        },
    };
    let n = match parse_usize(a) {
        Some(n) => n,
        None => {
            return Err("provided argument is not an integer".to_owned());
        },
    };
    if n == 0 {
        return Err("the buffer number may not be zero".to_owned());
    }
    if n > doc_count {
        let m = str_concat(str_concat("buffer ", a).as_str(), " is out of range");
        return Err(m);
    }
    if reverse {
        Ok(doc_count - n)
    } else {
        Ok(n - 1)
    }
}

/// The walked paths, each stripped of the directory prefix, the empty ones
/// dropped, each followed by a newline.
pub open spec fn file_listing(paths: Seq<Seq<char>>, dir: Seq<char>) -> Seq<char>
    decreases paths.len(),
{
    if paths.len() == 0 {
        Seq::empty()
    } else {
        let rest = file_listing(paths.drop_last(), dir);
        let p = stripped_path(paths.last(), dir);
        if p.len() == 0 {
            rest
        } else {
            rest + p + seq!['\n']
        }
    }
}

/// Renders the walked paths relative to the directory, one per line.
pub fn collect_files(paths: &Vec<String>, dir: &str) -> (r: String)
    ensures
        r@ == file_listing(paths.deep_view(), dir@),
{
    let mut out = String::new();
    let mut i: usize = 0;
    proof {
        reveal_strlit("\n");
    }
    while i < paths.len()
        invariant
            i <= paths@.len(),
            "\n"@ =~= seq!['\n'],
            out@ == file_listing(paths.deep_view().subrange(0, i as int), dir@),
        decreases paths@.len() - i,
    {
        let ghost dv = paths.deep_view();
        let p = strip_path_prefix(paths[i].as_str(), dir);
        if !p.as_str().is_empty() {
            out.append(p.as_str());
            out.append("\n");
        }
        proof {
            let pre = dv.subrange(0, i as int + 1);
            assert(pre.drop_last() =~= dv.subrange(0, i as int));
            assert(pre.last() == dv[i as int]);
            assert(dv[i as int] == paths@[i as int]@);
        }
        i = i + 1;
    }
    proof {
        assert(paths.deep_view().subrange(0, paths@.len() as int) =~= paths.deep_view());
    }
    out
}

/// The buffer content for the file listing: the rendered walk, trimmed of
/// surrounding whitespace.
pub fn oil(paths: &Vec<String>, dir: &str) -> (r: String)
    ensures
        r@ == trim_spec(file_listing(paths.deep_view(), dir@)),
{
    let listing = collect_files(paths, dir);
    trim_ws(listing.as_str())
}

/// A formatter's output with one trailing newline (or carriage return and
/// newline) removed when the formatted text itself did not end in one.
pub open spec fn normalized_output(text_ends_nl: bool, out: Seq<char>) -> Seq<char> {
    if !text_ends_nl && out.len() > 0 && out.last() == '\n' {
        let t = out.drop_last();
        if t.len() > 0 && t.last() == '\r' {
            t.drop_last()
        } else {
            t
        }
    } else {
        out
    }
}

/// What the external formatter's run means for the buffer: the normalised
/// output, or nothing when it matches the current text and no edit is
/// needed.
pub fn custom_formatter(text: &str, shell_output: Option<String>) -> (r: Option<String>)
    ensures
        match shell_output {
            None => r is None,
            Some(out) => {
                let ends_nl = text@.len() > 0 && text@.last() == '\n';
                let norm = normalized_output(ends_nl, out@);
                if norm == text@ {
                    r is None
                } else {
                    r matches Some(s) && s@ == norm
                }
            },
        },
{
    let out = match shell_output {
        Some(out) => out,
        None => {
            return None;
        },
    };
    let tn = text.unicode_len();
    let ends_nl = tn > 0 && text.get_char(tn - 1) == '\n';
    proof {
        if tn > 0 {
            assert(text@.last() == text@[tn - 1]);
        }
    }
    let on = out.as_str().unicode_len();
    let norm: String = if !ends_nl && on > 0 && out.as_str().get_char(on - 1) == '\n' {
        proof {
            assert(out@.last() == out@[on - 1]);
            if on > 1 {
                assert(out@.drop_last().last() == out@[on - 2]);
            }
        }
        if on > 1 && out.as_str().get_char(on - 2) == '\r' {
            let t = out.as_str().substring_char(0, on - 2);
            proof {
                assert(t@ =~= out@.drop_last().drop_last());
            }
            t.to_owned()
        } else {
            let t = out.as_str().substring_char(0, on - 1);
            proof {
                assert(t@ =~= out@.drop_last());
            }
            t.to_owned()
        }
    } else {
        out
    };
    if str_eq(norm.as_str(), text) {
        None
    } else {
        Some(norm)
    }
}

} // verus!
