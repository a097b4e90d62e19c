//! The prompt-driven commands: each takes the text typed at the prompt,
//! understands a relativity prefix or the persisted default through the
//! resolver, and then reads or writes the record-form register. What the
//! host must then perform comes back as a `HarpEffect`.

use vstd::prelude::*;
use crate::access::{harp_update, unset_error, HarpOutput};
use crate::commands::HarpEffect;
use crate::entry::{EntrySnap, HarpContract, HarpInput, RecordSnap};
use crate::errors::{ArityIssue, HarpError};
use crate::resolve::{
    eval_harp_relativity, eval_kind, relativity_record, relativity_section, ContextSnap, EvalKind,
    EvalOutcome, ResolveContext,
};
use crate::store::Store;
use crate::text::{
    expand_tilde, join_newline, join_nl, parent_dir, parent_dir_of, strip_path_prefix,
    stripped_path, tilde_expanded,
};

verus! {

/// What one submitted prompt input did.
pub enum PromptOutcome {
    /// Empty input: nothing happens.
    Ignored,
    /// A bare relativity token changed the section's default; persist the
    /// store.
    DefaultChanged,
    /// The register was written; persist the store and report success.
    Updated,
    /// A get picked this effect for the host to perform.
    Perform(HarpEffect),
    /// The error to show.
    Failed(HarpError),
}

/// The contract a prompt get demands: the `path` field or the `extra`
/// field.
pub open spec fn prompt_contract(want_path: bool) -> HarpContract {
    if want_path {
        HarpContract { path: true, line: false, column: false, extra: false }
    } else {
        HarpContract { path: false, line: false, column: false, extra: true }
    }
}

/// The field a prompt get reads from a stored record.
pub open spec fn required_field(rec: RecordSnap, want_path: bool) -> Option<Seq<char>> {
    if want_path {
        rec.path
    } else {
        rec.extra
    }
}

/// A record holding only a path.
pub open spec fn path_record(p: Seq<char>) -> RecordSnap {
    RecordSnap { path: Some(p), line: None, column: None, extra: None }
}

/// A record holding only an extra value.
pub open spec fn extra_record(x: Seq<char>) -> RecordSnap {
    RecordSnap { path: None, line: None, column: None, extra: Some(x) }
}

/// The store after a bare token persisted a new default relativity: only
/// the bookkeeping slot changed.
pub open spec fn default_changed_frame(
    store0: Store,
    store1: Store,
    base: Seq<char>,
    token: Seq<char>,
) -> bool {
    forall|s: Seq<char>, rg: Seq<char>|
        #[trigger] store1.entry_at(s, rg) == if s == relativity_section(base) && rg
            == "current"@ {
            Some(EntrySnap::Record(relativity_record(token)))
        } else {
            store0.entry_at(s, rg)
        }
}

/// What a prompt get owes: nothing on empty input; the persisted default on
/// a bare token; otherwise the effect built (as `good` describes) from the
/// required field of the resolved register, or the error naming exactly
/// what was absent.
pub open spec fn prompt_get_post(
    store0: Store,
    store1: Store,
    ctx: ContextSnap,
    base: Seq<char>,
    input: Seq<char>,
    r: PromptOutcome,
    want_path: bool,
    good: spec_fn(HarpEffect, Seq<char>) -> bool,
) -> bool {
    if input.len() == 0 {
        r is Ignored && store1 == store0
    } else {
        match eval_kind(store0, ctx, base, input) {
            EvalKind::Bare => r is DefaultChanged && default_changed_frame(
                store0,
                store1,
                base,
                input,
            ),
            EvalKind::Unpathed => store1 == store0 && (r matches PromptOutcome::Failed(e) && e
                is UnpathedBuffer),
            EvalKind::Keyed(name, key) => store1 == store0 && match store0.entry_at(name, key) {
                None => r matches PromptOutcome::Failed(e) && unset_error(e, name, key),
                Some(EntrySnap::List(_)) => r matches PromptOutcome::Failed(e)
                    && e matches HarpError::FormatError { .. },
                Some(EntrySnap::Record(rec)) => match required_field(rec, want_path) {
                    None => r matches PromptOutcome::Failed(e) && (e
                        matches HarpError::ArityMismatch { section: es, register: er, issue }
                        && es@ == name && er@ == key && (issue
                        matches ArityIssue::MissingFields(m) && m == prompt_contract(
                        want_path,
                    ).missing_from(rec))),
                    Some(v) => r matches PromptOutcome::Perform(eff) && good(eff, v),
                },
            },
        }
    }
}

/// What a prompt set owes once its source value is in hand: the persisted
/// default on a bare token; otherwise exactly this record stored under the
/// resolved register and every other slot untouched.
pub open spec fn prompt_set_post(
    store0: Store,
    store1: Store,
    ctx: ContextSnap,
    base: Seq<char>,
    input: Seq<char>,
    r: PromptOutcome,
    rec: RecordSnap,
) -> bool {
    match eval_kind(store0, ctx, base, input) {
        EvalKind::Bare => r is DefaultChanged && default_changed_frame(store0, store1, base, input),
        EvalKind::Unpathed => store1 == store0 && (r matches PromptOutcome::Failed(e) && e
            is UnpathedBuffer),
        EvalKind::Keyed(name, key) => {
            &&& r is Updated
            &&& forall|s: Seq<char>, rg: Seq<char>|
                #[trigger] store1.entry_at(s, rg) == if s == name && rg == key {
                    Some(EntrySnap::Record(rec))
                } else {
                    store0.entry_at(s, rg)
                }
        },
    }
}

/// A prompt get up to the stored value.
enum ValueStep {
    Bare,
    Got(String),
    Bad(HarpError),
}

fn prompt_get_value(
    store: &mut Store,
    ctx: &ResolveContext,
    base: &str,
    input: &str,
    want_path: bool,
) -> (r: ValueStep)
    requires
        old(store).wf(),
        base@.len() > 0,
        input@.len() > 0,
    ensures
        final(store).wf(),
        match eval_kind(*old(store), ctx@, base@, input@) {
            EvalKind::Bare => r is Bare && default_changed_frame(
                *old(store),
                *final(store),
                base@,
                input@,
            ),
            EvalKind::Unpathed => *final(store) == *old(store) && (r matches ValueStep::Bad(e)
                && e is UnpathedBuffer),
            EvalKind::Keyed(name, key) => *final(store) == *old(store) && match old(
                store,
            ).entry_at(name, key) {
                None => r matches ValueStep::Bad(e) && unset_error(e, name, key),
                Some(EntrySnap::List(_)) => r matches ValueStep::Bad(e)
                    && e matches HarpError::FormatError { .. },
                Some(EntrySnap::Record(rec)) => match required_field(rec, want_path) {
                    None => r matches ValueStep::Bad(e) && (e matches HarpError::ArityMismatch {
                        section: es,
                        register: er,
                        issue,
                    } && es@ == name && er@ == key && (issue matches ArityIssue::MissingFields(m)
                        && m == prompt_contract(want_path).missing_from(rec))),
                    Some(v) => r matches ValueStep::Got(s) && s@ == v,
                },
            },
        },
{
    match eval_harp_relativity(store, ctx, base, input) {
        EvalOutcome::DefaultChanged => ValueStep::Bare,
        EvalOutcome::Failed(e) => ValueStep::Bad(e),
        EvalOutcome::Resolved { section, register } => {
            let contract = if want_path {
                HarpContract::path()
            } else {
                HarpContract::extra()
            };
            match HarpOutput::build(store, section.as_str(), register.as_str(), contract) {
                Err(e) => ValueStep::Bad(e),
                Ok(out) => {
                    let v = if want_path {
                        out.path
                    } else {
                        out.extra
                    };
                    match v {
                        Some(v) => ValueStep::Got(v),
                        None => {
                            proof {
                                assert(false);
                            }
                            ValueStep::Bare
                        },
                    }
                },
            }
        },
    }
}

/// A prompt set once the record to store is in hand.
enum SetStep {
    Bare,
    Done,
    Bad(HarpError),
}

fn prompt_set_record(
    store: &mut Store,
    ctx: &ResolveContext,
    base: &str,
    input: &str,
    values: HarpInput,
) -> (r: SetStep)
    requires
        old(store).wf(),
        base@.len() > 0,
        input@.len() > 0,
    ensures
        final(store).wf(),
        match eval_kind(*old(store), ctx@, base@, input@) {
            EvalKind::Bare => r is Bare && default_changed_frame(
                *old(store),
                *final(store),
                base@,
                input@,
            ),
            EvalKind::Unpathed => *final(store) == *old(store) && (r matches SetStep::Bad(e) && e
                is UnpathedBuffer),
            EvalKind::Keyed(name, key) => {
                &&& r is Done
                &&& forall|s: Seq<char>, rg: Seq<char>|
                    #[trigger] final(store).entry_at(s, rg) == if s == name && rg == key {
                        Some(EntrySnap::Record(values@))
                    } else {
                        old(store).entry_at(s, rg)
                    }
            },
        },
{
    match eval_harp_relativity(store, ctx, base, input) {
        EvalOutcome::DefaultChanged => SetStep::Bare,
        EvalOutcome::Failed(e) => SetStep::Bad(e),
        EvalOutcome::Resolved { section, register } => {
            harp_update(store, section.as_str(), register.as_str(), values);
            SetStep::Done
        },
    }
}

/// Opens the file whose path is stored under the resolved file register.
pub fn harp_file_get(store: &mut Store, ctx: &ResolveContext, input: &str) -> (r: PromptOutcome)
    requires
        old(store).wf(),
    ensures
        final(store).wf(),
        prompt_get_post(
            *old(store),
            *final(store),
            ctx@,
            "harp_files"@,
            input@,
            r,
            true,
            (|eff: HarpEffect, v: Seq<char>| eff matches HarpEffect::OpenPath(p) && p@ == v),
        ),
{
    if input.is_empty() {
        return PromptOutcome::Ignored;
    }
    proof {
        reveal_strlit("harp_files");
    }
    match prompt_get_value(store, ctx, "harp_files", input, true) {
        ValueStep::Bare => PromptOutcome::DefaultChanged,
        ValueStep::Bad(e) => PromptOutcome::Failed(e),
        ValueStep::Got(v) => PromptOutcome::Perform(HarpEffect::OpenPath(v)),
    }
}

/// Stores the current buffer's path under the resolved file register.
pub fn harp_file_set(store: &mut Store, ctx: &ResolveContext, input: &str) -> (r: PromptOutcome)
    requires
        old(store).wf(),
    ensures
        final(store).wf(),
        ({
            if input@.len() == 0 {
                r is Ignored && *final(store) == *old(store)
            } else {
                match ctx@.buffer_path {
                    None => *final(store) == *old(store) && (r matches PromptOutcome::Failed(e)
                        && e is UnpathedBuffer),
                    Some(p) => prompt_set_post(
                        *old(store),
                        *final(store),
                        ctx@,
                        "harp_files"@,
                        input@,
                        r,
                        path_record(p),
                    ),
                }
            }
        }),
{
    if input.is_empty() {
        return PromptOutcome::Ignored;
    }
    let p = match &ctx.buffer_path {
        Some(p) => p.clone(),
        None => {
            return PromptOutcome::Failed(HarpError::UnpathedBuffer);
        },
    };
    proof {
        reveal_strlit("harp_files");
    }
    match prompt_set_record(store, ctx, "harp_files", input, HarpInput::with_path(p)) {
        SetStep::Bare => PromptOutcome::DefaultChanged,
        SetStep::Done => PromptOutcome::Updated,
        SetStep::Bad(e) => PromptOutcome::Failed(e),
    }
}

/// Opens the file stored under the resolved relative-file register.
pub fn harp_relative_file_get(store: &mut Store, ctx: &ResolveContext, input: &str) -> (r:
    PromptOutcome)
    requires
        old(store).wf(),
    ensures
        final(store).wf(),
        prompt_get_post(
            *old(store),
            *final(store),
            ctx@,
            "harp_relative_files"@,
            input@,
            r,
            true,
            (|eff: HarpEffect, v: Seq<char>| eff matches HarpEffect::OpenPath(p) && p@ == v),
        ),
{
    if input.is_empty() {
        return PromptOutcome::Ignored;
    }
    proof {
        reveal_strlit("harp_relative_files");
    }
    match prompt_get_value(store, ctx, "harp_relative_files", input, true) {
        ValueStep::Bare => PromptOutcome::DefaultChanged,
        ValueStep::Bad(e) => PromptOutcome::Failed(e),
        ValueStep::Got(v) => PromptOutcome::Perform(HarpEffect::OpenPath(v)),
    }
}

/// Stores the buffer's path, relative to the working directory when under
/// it, in the resolved relative-file register.
pub fn harp_relative_file_set(store: &mut Store, ctx: &ResolveContext, input: &str) -> (r:
    PromptOutcome)
    requires
        old(store).wf(),
    ensures
        final(store).wf(),
        ({
            if input@.len() == 0 {
                r is Ignored && *final(store) == *old(store)
            } else {
                match ctx@.buffer_path {
                    None => *final(store) == *old(store) && (r matches PromptOutcome::Failed(e)
                        && e is UnpathedBuffer),
                    Some(p) => prompt_set_post(
                        *old(store),
                        *final(store),
                        ctx@,
                        "harp_relative_files"@,
                        input@,
                        r,
                        path_record(stripped_path(p, ctx@.cwd)),
                    ),
                }
            }
        }),
{
    if input.is_empty() {
        return PromptOutcome::Ignored;
    }
    let p = match &ctx.buffer_path {
        Some(p) => strip_path_prefix(p.as_str(), ctx.cwd.as_str()),
        None => {
            return PromptOutcome::Failed(HarpError::UnpathedBuffer);
        },
    };
    proof {
        reveal_strlit("harp_relative_files");
    }
    match prompt_set_record(store, ctx, "harp_relative_files", input, HarpInput::with_path(p)) {
        SetStep::Bare => PromptOutcome::DefaultChanged,
        SetStep::Done => PromptOutcome::Updated,
        SetStep::Bad(e) => PromptOutcome::Failed(e),
    }
}

/// Changes the working directory to the one stored under the resolved
/// directory register.
pub fn harp_cwd_get(store: &mut Store, ctx: &ResolveContext, input: &str) -> (r: PromptOutcome)
    requires
        old(store).wf(),
    ensures
        final(store).wf(),
        prompt_get_post(
            *old(store),
            *final(store),
            ctx@,
            "harp_dirs"@,
            input@,
            r,
            true,
            (|eff: HarpEffect, v: Seq<char>| eff matches HarpEffect::SetCwd(p) && p@ == v),
        ),
{
    if input.is_empty() {
        return PromptOutcome::Ignored;
    }
    proof {
        reveal_strlit("harp_dirs");
    }
    match prompt_get_value(store, ctx, "harp_dirs", input, true) {
        ValueStep::Bare => PromptOutcome::DefaultChanged,
        ValueStep::Bad(e) => PromptOutcome::Failed(e),
        ValueStep::Got(v) => PromptOutcome::Perform(HarpEffect::SetCwd(v)),
    }
}

/// Stores a directory under the resolved directory register: the working
/// directory, or the buffer's parent directory when the input begins with
/// the directory token.
pub fn harp_cwd_set(store: &mut Store, ctx: &ResolveContext, input: &str) -> (r: PromptOutcome)
    requires
        old(store).wf(),
    ensures
        final(store).wf(),
        ({
            if input@.len() == 0 {
                r is Ignored && *final(store) == *old(store)
            } else if input@[0] != '.' {
                prompt_set_post(
                    *old(store),
                    *final(store),
                    ctx@,
                    "harp_dirs"@,
                    input@,
                    r,
                    path_record(ctx@.cwd),
                )
            } else if input@.len() == 1 {
                r is DefaultChanged && default_changed_frame(
                    *old(store),
                    *final(store),
                    "harp_dirs"@,
                    input@,
                )
            } else {
                match ctx@.buffer_path {
                    None => *final(store) == *old(store) && (r matches PromptOutcome::Failed(e)
                        && e is UnpathedBuffer),
                    Some(p) => match parent_dir(p) {
                        None => *final(store) == *old(store) && (r
                            matches PromptOutcome::Failed(e)
                            && e matches HarpError::FormatError { .. }),
                        Some(d) => prompt_set_post(
                            *old(store),
                            *final(store),
                            ctx@,
                            "harp_dirs"@,
                            input@,
                            r,
                            path_record(d),
                        ),
                    },
                }
            }
        }),
{
    if input.is_empty() {
        return PromptOutcome::Ignored;
    }
    proof {
        reveal_strlit("harp_dirs");
    }
    let c0 = input.get_char(0);
    if c0 != '.' {
        let cwd = ctx.cwd.clone();
        match prompt_set_record(store, ctx, "harp_dirs", input, HarpInput::with_path(cwd)) {
            SetStep::Bare => PromptOutcome::DefaultChanged,
            SetStep::Done => PromptOutcome::Updated,
            SetStep::Bad(e) => PromptOutcome::Failed(e),
        }
    } else if input.unicode_len() == 1 {
        match prompt_set_record(store, ctx, "harp_dirs", input, HarpInput::empty()) {
            SetStep::Bare => PromptOutcome::DefaultChanged,
            SetStep::Done => PromptOutcome::Updated,
            SetStep::Bad(e) => PromptOutcome::Failed(e),
        }
    } else {
        let p = match &ctx.buffer_path {
            Some(p) => p,
            None => {
                return PromptOutcome::Failed(HarpError::UnpathedBuffer);
            },
        };
        let d = match parent_dir_of(p.as_str()) {
            Some(d) => d,
            None => {
                return PromptOutcome::Failed(
                    HarpError::FormatError {
                        message: "current buffer doesn't have a parent directory".to_owned(),
                    },
                );
            },
        };
        match prompt_set_record(store, ctx, "harp_dirs", input, HarpInput::with_path(d)) {
            SetStep::Bare => PromptOutcome::DefaultChanged,
            SetStep::Done => PromptOutcome::Updated,
            SetStep::Bad(e) => PromptOutcome::Failed(e),
        }
    }
}

/// Opens a file picker in the directory stored under the resolved directory
/// register, with a leading tilde expanded.
pub fn harp_fuzzy_get(
    store: &mut Store,
    ctx: &ResolveContext,
    input: &str,
    home: Option<String>,
) -> (r: PromptOutcome)
    requires
        old(store).wf(),
    ensures
        final(store).wf(),
        prompt_get_post(
            *old(store),
            *final(store),
            ctx@,
            "harp_dirs"@,
            input@,
            r,
            true,
            (|eff: HarpEffect, v: Seq<char>|
                eff matches HarpEffect::OpenPicker(p) && p@ == tilde_expanded(
                    v,
                    match home {
                        Some(h) => Some(h@),
                        None => None,
                    },
                )),
        ),
{
    if input.is_empty() {
        return PromptOutcome::Ignored;
    }
    proof {
        reveal_strlit("harp_dirs");
    }
    match prompt_get_value(store, ctx, "harp_dirs", input, true) {
        ValueStep::Bare => PromptOutcome::DefaultChanged,
        ValueStep::Bad(e) => PromptOutcome::Failed(e),
        ValueStep::Got(v) => {
            let h = match &home {
                Some(h) => Some(h),
                None => None,
            };
            let ex = expand_tilde(v.as_str(), h);
            PromptOutcome::Perform(HarpEffect::OpenPicker(ex))
        },
    }
}

/// Writes the stored pattern to the search register.
pub fn harp_search_get(store: &mut Store, ctx: &ResolveContext, input: &str) -> (r: PromptOutcome)
    requires
        old(store).wf(),
    ensures
        final(store).wf(),
        prompt_get_post(
            *old(store),
            *final(store),
            ctx@,
            "harp_searches"@,
            input@,
            r,
            false,
            (|eff: HarpEffect, v: Seq<char>| eff matches HarpEffect::SetSearch(p) && p@ == v),
        ),
{
    if input.is_empty() {
        return PromptOutcome::Ignored;
    }
    proof {
        reveal_strlit("harp_searches");
    }
    match prompt_get_value(store, ctx, "harp_searches", input, false) {
        ValueStep::Bare => PromptOutcome::DefaultChanged,
        ValueStep::Bad(e) => PromptOutcome::Failed(e),
        ValueStep::Got(v) => PromptOutcome::Perform(HarpEffect::SetSearch(v)),
    }
}

/// Stores the current search pattern, which must exist, under the resolved
/// search register.
pub fn harp_search_set(
    store: &mut Store,
    ctx: &ResolveContext,
    input: &str,
    search: Option<String>,
) -> (r: PromptOutcome)
    requires
        old(store).wf(),
    ensures
        final(store).wf(),
        ({
            if input@.len() == 0 {
                r is Ignored && *final(store) == *old(store)
            } else {
                match search {
                    None => *final(store) == *old(store) && (r matches PromptOutcome::Failed(e)
                        && (e matches HarpError::WriteTargetUnavailable { target } && target@
                        == "/"@)),
                    Some(p) => prompt_set_post(
                        *old(store),
                        *final(store),
                        ctx@,
                        "harp_searches"@,
                        input@,
                        r,
                        extra_record(p@),
                    ),
                }
            }
        }),
{
    if input.is_empty() {
        return PromptOutcome::Ignored;
    }
    let sv = match search {
        Some(sv) => sv,
        None => {
            return PromptOutcome::Failed(
                HarpError::WriteTargetUnavailable { target: "/".to_owned() },
            );
        },
    };
    proof {
        reveal_strlit("harp_searches");
    }
    match prompt_set_record(store, ctx, "harp_searches", input, HarpInput::with_extra(sv)) {
        SetStep::Bare => PromptOutcome::DefaultChanged,
        SetStep::Done => PromptOutcome::Updated,
        SetStep::Bad(e) => PromptOutcome::Failed(e),
    }
}

/// Writes the stored value to the default yank register.
pub fn harp_register_get(store: &mut Store, ctx: &ResolveContext, input: &str) -> (r:
    PromptOutcome)
    requires
        old(store).wf(),
    ensures
        final(store).wf(),
        prompt_get_post(
            *old(store),
            *final(store),
            ctx@,
            "harp_registers"@,
            input@,
            r,
            false,
            (|eff: HarpEffect, v: Seq<char>| eff matches HarpEffect::YankValue(p) && p@ == v),
        ),
{
    if input.is_empty() {
        return PromptOutcome::Ignored;
    }
    proof {
        reveal_strlit("harp_registers");
    }
    match prompt_get_value(store, ctx, "harp_registers", input, false) {
        ValueStep::Bare => PromptOutcome::DefaultChanged,
        ValueStep::Bad(e) => PromptOutcome::Failed(e),
        ValueStep::Got(v) => PromptOutcome::Perform(HarpEffect::YankValue(v)),
    }
}

/// Stores the default yank register's values, joined by newlines, under the
/// resolved register.
pub fn harp_register_set(
    store: &mut Store,
    ctx: &ResolveContext,
    input: &str,
    yank: Option<Vec<String>>,
) -> (r: PromptOutcome)
    requires
        old(store).wf(),
    ensures
        final(store).wf(),
        ({
            if input@.len() == 0 {
                r is Ignored && *final(store) == *old(store)
            } else {
                match yank {
                    None => *final(store) == *old(store) && (r matches PromptOutcome::Failed(e)
                        && (e matches HarpError::WriteTargetUnavailable { target } && target@
                        == "default"@)),
                    Some(vals) => prompt_set_post(
                        *old(store),
                        *final(store),
                        ctx@,
                        "harp_registers"@,
                        input@,
                        r,
                        extra_record(join_nl(vals.deep_view())),
                    ),
                }
            }
        }),
{
    if input.is_empty() {
        return PromptOutcome::Ignored;
    }
    let vals = match yank {
        Some(vals) => vals,
        None => {
            return PromptOutcome::Failed(
                HarpError::WriteTargetUnavailable { target: "default".to_owned() },
            );
        },
    };
    let joined = join_newline(&vals);
    proof {
        reveal_strlit("harp_registers");
    }
    match prompt_set_record(store, ctx, "harp_registers", input, HarpInput::with_extra(joined)) {
        SetStep::Bare => PromptOutcome::DefaultChanged,
        SetStep::Done => PromptOutcome::Updated,
        SetStep::Bad(e) => PromptOutcome::Failed(e),
    }
}

/// Runs the stored command line, writing it to command history first.
pub fn harp_command_get(store: &mut Store, ctx: &ResolveContext, input: &str) -> (r: PromptOutcome)
    requires
        old(store).wf(),
    ensures
        final(store).wf(),
        prompt_get_post(
            *old(store),
            *final(store),
            ctx@,
            "harp_commands"@,
            input@,
            r,
            false,
            (|eff: HarpEffect, v: Seq<char>|
                eff matches HarpEffect::RunCommand { command, push_history } && command@ == v
                    && push_history),
        ),
{
    if input.is_empty() {
        return PromptOutcome::Ignored;
    }
    proof {
        reveal_strlit("harp_commands");
    }
    match prompt_get_value(store, ctx, "harp_commands", input, false) {
        ValueStep::Bare => PromptOutcome::DefaultChanged,
        ValueStep::Bad(e) => PromptOutcome::Failed(e),
        ValueStep::Got(v) => PromptOutcome::Perform(
            HarpEffect::RunCommand { command: v, push_history: true },
        ),
    }
}

/// Stores the most recent command line, which must exist, under the
/// resolved command register.
pub fn harp_command_set(
    store: &mut Store,
    ctx: &ResolveContext,
    input: &str,
    history_head: Option<String>,
) -> (r: PromptOutcome)
    requires
        old(store).wf(),
    ensures
        final(store).wf(),
        ({
            if input@.len() == 0 {
                r is Ignored && *final(store) == *old(store)
            } else {
                match history_head {
                    None => *final(store) == *old(store) && (r matches PromptOutcome::Failed(e)
                        && (e matches HarpError::WriteTargetUnavailable { target } && target@
                        == ":"@)),
                    Some(c) => prompt_set_post(
                        *old(store),
                        *final(store),
                        ctx@,
                        "harp_commands"@,
                        input@,
                        r,
                        extra_record(c@),
                    ),
                }
            }
        }),
{
    if input.is_empty() {
        return PromptOutcome::Ignored;
    }
    let c = match history_head {
        Some(c) => c,
        None => {
            return PromptOutcome::Failed(
                HarpError::WriteTargetUnavailable { target: ":".to_owned() },
            );
        },
    };
    proof {
        reveal_strlit("harp_commands");
    }
    match prompt_set_record(store, ctx, "harp_commands", input, HarpInput::with_extra(c)) {
        SetStep::Bare => PromptOutcome::DefaultChanged,
        SetStep::Done => PromptOutcome::Updated,
        SetStep::Bad(e) => PromptOutcome::Failed(e),
    }
}

} // verus!
