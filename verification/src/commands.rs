//! The terminal actions of the resolve protocol: once a (mode, section,
//! register) triple is picked, these read or write the register and say
//! what the host must do with the value. The host's own work — opening a
//! file, writing an editor register, running a command line — comes back as
//! a `HarpEffect` value.

use vstd::prelude::*;
use crate::access::{harp_get, harp_get_one, harp_replace, unset_error, wrong_count_error};
use crate::digits::{all_digits, dec_digits, dec_value, parse_usize, usize_to_string};
use crate::entry::EntrySnap;
use crate::errors::HarpError;
use crate::protocol::Reciprocation;
use crate::store::Store;
use crate::util::str_eq;
use crate::text::{join_newline, join_nl, strip_path_prefix, stripped_path};

verus! {

/// What the host performs after a terminal action.
pub enum HarpEffect {
    /// Open this file.
    OpenPath(String),
    /// Open this file and put the cursor at (line, column).
    OpenAt { path: String, line: usize, column: usize },
    /// Change the working directory to this path.
    SetCwd(String),
    /// Write this value to the search register and report it.
    SetSearch(String),
    /// Write this value to the default yank register and report it.
    YankValue(String),
    /// Run this command line, first pushing it to history when asked.
    RunCommand { command: String, push_history: bool },
    /// Open a file picker rooted in this directory.
    OpenPicker(String),
    /// The store changed; persist it and report success.
    Saved,
}

/// What a get owes for each state of a one-value register: the effect built
/// from the stored value (as `good` describes), or the error naming the
/// failure.
pub open spec fn reads_one(
    stored: Option<EntrySnap>,
    section: Seq<char>,
    register: Seq<char>,
    r: Result<HarpEffect, HarpError>,
    good: spec_fn(HarpEffect, Seq<char>) -> bool,
) -> bool {
    match stored {
        None => r matches Err(e) && unset_error(e, section, register),
        Some(EntrySnap::Record(_)) => r matches Err(e) && e matches HarpError::FormatError { .. },
        Some(EntrySnap::List(vals)) => if vals.len() == 0 {
            r matches Err(e) && unset_error(e, section, register)
        } else if vals.len() != 1 {
            r matches Err(e) && wrong_count_error(e, section, register, 1, vals.len() as int)
        } else {
            r matches Ok(eff) && good(eff, vals[0])
        },
    }
}

/// What a successful set owes: success reported, exactly these values
/// stored under (section, register), and every other slot untouched.
pub open spec fn saved_list(
    store0: Store,
    store1: Store,
    section: Seq<char>,
    register: Seq<char>,
    vals: Seq<Seq<char>>,
    r: Result<HarpEffect, HarpError>,
) -> bool {
    &&& r matches Ok(eff) && eff is Saved
    &&& forall|s: Seq<char>, rg: Seq<char>|
        #[trigger] store1.entry_at(s, rg) == if s == section && rg == register {
            Some(EntrySnap::List(vals))
        } else {
            store0.entry_at(s, rg)
        }
}

/// File registers: get opens the stored path; set stores the current
/// buffer's path, which the buffer must have.
pub fn harp_file(
    store: &mut Store,
    reciprocation: Reciprocation,
    section: &str,
    register: &str,
    buffer_path: Option<String>,
) -> (r: Result<HarpEffect, HarpError>)
    requires
        old(store).wf(),
        section@.len() > 0,
        register@.len() > 0,
        !(reciprocation is Delete),
    ensures
        final(store).wf(),
        reciprocation is Get ==> *final(store) == *old(store) && reads_one(
            old(store).entry_at(section@, register@),
            section@,
            register@,
            r,
            (|eff: HarpEffect, v: Seq<char>| eff matches HarpEffect::OpenPath(p) && p@ == v),
        ),
        reciprocation is Put ==> match buffer_path {
            None => r matches Err(e) && e is UnpathedBuffer && *final(store) == *old(store),
            Some(p) => saved_list(*old(store), *final(store), section@, register@, seq![p@], r),
        },
{
    match reciprocation {
        Reciprocation::Put => {
            match buffer_path {
                None => Err(HarpError::UnpathedBuffer),
                Some(p) => {
                    let ghost pv = p@;
                    let mut values: Vec<String> = Vec::new();
                    values.push(p);
                    proof {
                        assert(values.deep_view() =~= seq![pv]);
                    }
                    harp_replace(store, section, register, values);
                    Ok(HarpEffect::Saved)
                },
            }
        },
        _ => {
            match harp_get_one(store, section, register) {
                Ok(v) => Ok(HarpEffect::OpenPath(v)),
                Err(e) => Err(e),
            }
        },
    }
}

/// Relative-file registers: as file registers, but set stores the buffer's
/// path relative to the working directory when it lies under it.
pub fn harp_relative_file(
    store: &mut Store,
    reciprocation: Reciprocation,
    section: &str,
    register: &str,
    buffer_path: Option<String>,
    cwd: &str,
) -> (r: Result<HarpEffect, HarpError>)
    requires
        old(store).wf(),
        section@.len() > 0,
        register@.len() > 0,
        !(reciprocation is Delete),
    ensures
        final(store).wf(),
        reciprocation is Get ==> *final(store) == *old(store) && reads_one(
            old(store).entry_at(section@, register@),
            section@,
            register@,
            r,
            (|eff: HarpEffect, v: Seq<char>| eff matches HarpEffect::OpenPath(p) && p@ == v),
        ),
        reciprocation is Put ==> match buffer_path {
            None => r matches Err(e) && e is UnpathedBuffer && *final(store) == *old(store),
            Some(p) => saved_list(
                *old(store),
                *final(store),
                section@,
                register@,
                seq![stripped_path(p@, cwd@)],
                r,
            ),
        },
{
    match reciprocation {
        Reciprocation::Put => {
            match buffer_path {
                None => Err(HarpError::UnpathedBuffer),
                Some(p) => {
                    let rel = strip_path_prefix(p.as_str(), cwd);
                    let ghost rv = rel@;
                    let mut values: Vec<String> = Vec::new();
                    values.push(rel);
                    proof {
                        assert(values.deep_view() =~= seq![rv]);
                    }
                    harp_replace(store, section, register, values);
                    Ok(HarpEffect::Saved)
                },
            }
        },
        _ => {
            match harp_get_one(store, section, register) {
                Ok(v) => Ok(HarpEffect::OpenPath(v)),
                Err(e) => Err(e),
            }
        },
    }
}

/// Working-directory registers: get changes directory to the stored path;
/// set stores the current working directory.
pub fn harp_cwd(
    store: &mut Store,
    reciprocation: Reciprocation,
    section: &str,
    register: &str,
    cwd: &str,
) -> (r: Result<HarpEffect, HarpError>)
    requires
        old(store).wf(),
        section@.len() > 0,
        register@.len() > 0,
        !(reciprocation is Delete),
    ensures
        final(store).wf(),
        reciprocation is Get ==> *final(store) == *old(store) && reads_one(
            old(store).entry_at(section@, register@),
            section@,
            register@,
            r,
            (|eff: HarpEffect, v: Seq<char>| eff matches HarpEffect::SetCwd(p) && p@ == v),
        ),
        reciprocation is Put ==> saved_list(
            *old(store),
            *final(store),
            section@,
            register@,
            seq![cwd@],
            r,
        ),
{
    match reciprocation {
        Reciprocation::Put => {
            let c = cwd.to_owned();
            let ghost cv = c@;
            let mut values: Vec<String> = Vec::new();
            values.push(c);
            proof {
                assert(values.deep_view() =~= seq![cv]);
            }
            harp_replace(store, section, register, values);
            Ok(HarpEffect::Saved)
        },
        _ => {
            match harp_get_one(store, section, register) {
                Ok(v) => Ok(HarpEffect::SetCwd(v)),
                Err(e) => Err(e),
            }
        },
    }
}

/// Search registers: get writes the stored pattern to the search register;
/// set stores the current search pattern, which must exist.
pub fn harp_search(
    store: &mut Store,
    reciprocation: Reciprocation,
    section: &str,
    register: &str,
    search: Option<String>,
) -> (r: Result<HarpEffect, HarpError>)
    requires
        old(store).wf(),
        section@.len() > 0,
        register@.len() > 0,
        !(reciprocation is Delete),
    ensures
        final(store).wf(),
        reciprocation is Get ==> *final(store) == *old(store) && reads_one(
            old(store).entry_at(section@, register@),
            section@,
            register@,
            r,
            (|eff: HarpEffect, v: Seq<char>| eff matches HarpEffect::SetSearch(p) && p@ == v),
        ),
        reciprocation is Put ==> match search {
            None => *final(store) == *old(store) && (r matches Err(e)
                && (e matches HarpError::WriteTargetUnavailable { target } && target@ == "/"@)),
            Some(p) => saved_list(*old(store), *final(store), section@, register@, seq![p@], r),
        },
{
    match reciprocation {
        Reciprocation::Put => {
            match search {
                None => Err(HarpError::WriteTargetUnavailable { target: "/".to_owned() }),
                Some(p) => {
                    let ghost pv = p@;
                    let mut values: Vec<String> = Vec::new();
                    values.push(p);
                    proof {
                        assert(values.deep_view() =~= seq![pv]);
                    }
                    harp_replace(store, section, register, values);
                    Ok(HarpEffect::Saved)
                },
            }
        },
        _ => {
            match harp_get_one(store, section, register) {
                Ok(v) => Ok(HarpEffect::SetSearch(v)),
                Err(e) => Err(e),
            }
        },
    }
}

/// Yank registers: get writes the stored value to the default register; set
/// stores the default register's values joined by newlines.
pub fn harp_register(
    store: &mut Store,
    reciprocation: Reciprocation,
    section: &str,
    register: &str,
    yank: Option<Vec<String>>,
) -> (r: Result<HarpEffect, HarpError>)
    requires
        old(store).wf(),
        section@.len() > 0,
        register@.len() > 0,
        !(reciprocation is Delete),
    ensures
        final(store).wf(),
        reciprocation is Get ==> *final(store) == *old(store) && reads_one(
            old(store).entry_at(section@, register@),
            section@,
            register@,
            r,
            (|eff: HarpEffect, v: Seq<char>| eff matches HarpEffect::YankValue(p) && p@ == v),
        ),
        reciprocation is Put ==> match yank {
            None => *final(store) == *old(store) && (r matches Err(e)
                && (e matches HarpError::WriteTargetUnavailable { target } && target@
                == "default"@)),
            Some(vals) => saved_list(
                *old(store),
                *final(store),
                section@,
                register@,
                seq![join_nl(vals.deep_view())],
                r,
            ),
        },
{
    match reciprocation {
        Reciprocation::Put => {
            match yank {
                None => Err(HarpError::WriteTargetUnavailable { target: "default".to_owned() }),
                Some(vals) => {
                    let joined = join_newline(&vals);
                    let ghost jv = joined@;
                    let mut values: Vec<String> = Vec::new();
                    values.push(joined);
                    proof {
                        assert(values.deep_view() =~= seq![jv]);
                    }
                    harp_replace(store, section, register, values);
                    Ok(HarpEffect::Saved)
                },
            }
        },
        _ => {
            match harp_get_one(store, section, register) {
                Ok(v) => Ok(HarpEffect::YankValue(v)),
                Err(e) => Err(e),
            }
        },
    }
}

/// Command registers: get runs the stored command line, pushing it to
/// history unless it is already the latest history entry; set stores the
/// most recent command line, which must exist.
pub fn harp_command(
    store: &mut Store,
    reciprocation: Reciprocation,
    section: &str,
    register: &str,
    last_history: Option<String>,
    history_head: Option<String>,
) -> (r: Result<HarpEffect, HarpError>)
    requires
        old(store).wf(),
        section@.len() > 0,
        register@.len() > 0,
        !(reciprocation is Delete),
    ensures
        final(store).wf(),
        reciprocation is Get ==> *final(store) == *old(store) && reads_one(
            old(store).entry_at(section@, register@),
            section@,
            register@,
            r,
            (|eff: HarpEffect, v: Seq<char>|
                eff matches HarpEffect::RunCommand { command, push_history } && command@ == v
                    && push_history == (match last_history {
                    None => true,
                    Some(l) => l@ != v,
                })),
        ),
        reciprocation is Put ==> match history_head {
            None => *final(store) == *old(store) && (r matches Err(e)
                && (e matches HarpError::WriteTargetUnavailable { target } && target@ == ":"@)),
            Some(c) => saved_list(*old(store), *final(store), section@, register@, seq![c@], r),
        },
{
    match reciprocation {
        Reciprocation::Put => {
            match history_head {
                None => Err(HarpError::WriteTargetUnavailable { target: ":".to_owned() }),
                Some(c) => {
                    let ghost cv = c@;
                    let mut values: Vec<String> = Vec::new();
                    values.push(c);
                    proof {
                        assert(values.deep_view() =~= seq![cv]);
                    }
                    harp_replace(store, section, register, values);
                    Ok(HarpEffect::Saved)
                },
            }
        },
        _ => {
            let v = match harp_get_one(store, section, register) {
                Ok(v) => v,
                Err(e) => {
                    return Err(e);
                },
            };
            let push_history = match &last_history {
                None => true,
                Some(l) => !str_eq(l.as_str(), v.as_str()),
            };
            Ok(HarpEffect::RunCommand { command: v, push_history })
        },
    }
}

/// Mark registers: get opens the stored path at the stored coordinates; set
/// stores the buffer's path and the cursor's line and column.
pub fn harp_mark(
    store: &mut Store,
    reciprocation: Reciprocation,
    section: &str,
    register: &str,
    buffer_path: Option<String>,
    line: usize,
    column: usize,
) -> (r: Result<HarpEffect, HarpError>)
    requires
        old(store).wf(),
        section@.len() > 0,
        register@.len() > 0,
        !(reciprocation is Delete),
    ensures
        final(store).wf(),
        reciprocation is Get ==> *final(store) == *old(store) && ({
            match old(store).entry_at(section@, register@) {
                None => r matches Err(e) && unset_error(e, section@, register@),
                Some(EntrySnap::Record(_)) => r matches Err(e)
                    && e matches HarpError::FormatError { .. },
                Some(EntrySnap::List(vals)) => if vals.len() == 0 {
                    r matches Err(e) && unset_error(e, section@, register@)
                } else if vals.len() != 3 {
                    r matches Err(e) && wrong_count_error(e, section@, register@, 3, vals.len() as int)
                } else if all_digits(vals[1]) && vals[1].len() > 0 && dec_value(vals[1])
                    <= usize::MAX && all_digits(vals[2]) && vals[2].len() > 0 && dec_value(
                    vals[2],
                ) <= usize::MAX {
                    r matches Ok(eff) && (eff matches HarpEffect::OpenAt { path, line: l, column: c }
                        && path@ == vals[0] && l == dec_value(vals[1]) && c == dec_value(vals[2]))
                } else {
                    r matches Err(e) && e matches HarpError::FormatError { .. }
                },
            }
        }),
        reciprocation is Put ==> match buffer_path {
            None => r matches Err(e) && e is UnpathedBuffer && *final(store) == *old(store),
            Some(p) => saved_list(
                *old(store),
                *final(store),
                section@,
                register@,
                seq![p@, dec_digits(line as nat), dec_digits(column as nat)],
                r,
            ),
        },
{
    match reciprocation {
        Reciprocation::Put => {
            match buffer_path {
                None => Err(HarpError::UnpathedBuffer),
                Some(p) => {
                    let ghost pv = p@;
                    let line_s = usize_to_string(line);
                    let col_s = usize_to_string(column);
                    let ghost lv = line_s@;
                    let ghost cv = col_s@;
                    let mut values: Vec<String> = Vec::new();
                    values.push(p);
                    values.push(line_s);
                    values.push(col_s);
                    proof {
                        assert(values.deep_view() =~= seq![pv, lv, cv]);
                    }
                    harp_replace(store, section, register, values);
                    Ok(HarpEffect::Saved)
                },
            }
        },
        _ => {
            let vals = match harp_get(store, 3, section, register) {
                Ok(vals) => vals,
                Err(e) => {
                    return Err(e);
                },
            };
            let line_v = match parse_usize(vals[1].as_str()) {
                Some(n) => n,
                None => {
                    return Err(
                        HarpError::FormatError {
                            message: "stored mark coordinates are not numbers".to_owned(),
                        },
                    );
                },
            };
            let col_v = match parse_usize(vals[2].as_str()) {
                Some(n) => n,
                None => {
                    return Err(
                        HarpError::FormatError {
                            message: "stored mark coordinates are not numbers".to_owned(),
                        },
                    );
                },
            };
            let mut vals = vals;
            let path = match vals.remove(0) {
                p => p,
            };
            Ok(HarpEffect::OpenAt { path, line: line_v, column: col_v })
        },
    }
}

} // verus!
