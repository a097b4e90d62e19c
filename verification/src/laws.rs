//! The laws of the store and resolver, stated over the same spec functions
//! the operations' contracts use and proved from them.

use vstd::prelude::*;
use crate::digits::{all_digits, dec_digits, dec_value, lemma_dec_digits_value};
use crate::entry::EntrySnap;
use crate::prompt::default_changed_frame;
use crate::resolve::{
    eval_kind, persisted_relativity, relativity_of_token, relativity_section, resolved_name,
    ContextSnap, EvalKind, Relativity,
};
use crate::store::Store;

verus! {

/// Law: writing entry `e` under (section, register) — the store relation
/// that `harp_replace` and `harp_update` establish — means reading that
/// slot back yields exactly `e`, and no other slot changed.
pub proof fn lemma_round_trip(
    pre: Store,
    post: Store,
    section: Seq<char>,
    register: Seq<char>,
    e: EntrySnap,
)
    requires
        forall|s: Seq<char>, rg: Seq<char>|
            #[trigger] post.entry_at(s, rg) == if s == section && rg == register {
                Some(e)
            } else {
                pre.entry_at(s, rg)
            },
    ensures
        post.entry_at(section, register) == Some(e),
        forall|s: Seq<char>, rg: Seq<char>|
            !(s == section && rg == register) ==> #[trigger] post.entry_at(s, rg) == pre.entry_at(
                s,
                rg,
            ),
{
}

/// Law: clear-then-append is idempotent — performing the same replacement
/// twice in a row leaves every slot exactly as one replacement does.
pub proof fn lemma_clear_append_idempotent(
    pre: Store,
    once: Store,
    twice: Store,
    section: Seq<char>,
    register: Seq<char>,
    values: Seq<Seq<char>>,
)
    requires
        forall|s: Seq<char>, rg: Seq<char>|
            #[trigger] once.entry_at(s, rg) == if s == section && rg == register {
                Some(EntrySnap::List(values))
            } else {
                pre.entry_at(s, rg)
            },
        forall|s: Seq<char>, rg: Seq<char>|
            #[trigger] twice.entry_at(s, rg) == if s == section && rg == register {
                Some(EntrySnap::List(values))
            } else {
                once.entry_at(s, rg)
            },
    ensures
        forall|s: Seq<char>, rg: Seq<char>|
            #[trigger] twice.entry_at(s, rg) == once.entry_at(s, rg),
{
}

/// Law: resolution is deterministic and reads only what its relativity
/// names. A buffer-scoped name is the base, an underscore and the buffer
/// path; a global name is the base alone, whatever the context holds.
pub proof fn lemma_resolve_deterministic(
    base: Seq<char>,
    ctx1: ContextSnap,
    ctx2: ContextSnap,
    p: Seq<char>,
)
    requires
        ctx1.buffer_path == Some(p),
    ensures
        resolved_name(base, Relativity::Buffer, ctx1) == Some(base + "_"@ + p),
        resolved_name(base, Relativity::Global, ctx1) == Some(base),
        resolved_name(base, Relativity::Global, ctx1) == resolved_name(
            base,
            Relativity::Global,
            ctx2,
        ),
{
}

/// Law: after a bare `.` token persists Directory as a section's default —
/// the store relation `eval_harp_relativity` establishes for it — any
/// unprefixed input for that section resolves under Directory scoping.
pub proof fn lemma_persisted_default_applies(
    store0: Store,
    store1: Store,
    ctx: ContextSnap,
    base: Seq<char>,
    input: Seq<char>,
)
    requires
        default_changed_frame(store0, store1, base, "."@),
        input.len() > 0,
        relativity_of_token(input[0]) is None,
    ensures
        persisted_relativity(store1, base) == Relativity::Directory,
        eval_kind(store1, ctx, base, input) == EvalKind::Keyed(base + "_"@ + ctx.cwd, input),
{
    reveal_strlit(".");
    assert("."@ =~= seq!['.']);
    assert(store1.entry_at(relativity_section(base), "current"@) == Some(
        EntrySnap::Record(crate::resolve::relativity_record("."@)),
    ));
}

/// Law: delete-all is scoped to one resolved section — every register
/// under it is gone, and every sibling section, in particular the same
/// logical base under another relativity, is untouched.
pub proof fn lemma_delete_all_scoping(
    pre: Store,
    post: Store,
    section: Seq<char>,
    sibling: Seq<char>,
    register: Seq<char>,
)
    requires
        forall|rg: Seq<char>| #[trigger] post.entry_at(section, rg) is None,
        forall|s: Seq<char>, rg: Seq<char>|
            s != section ==> #[trigger] post.entry_at(s, rg) == pre.entry_at(s, rg),
        sibling != section,
    ensures
        post.entry_at(section, register) is None,
        post.entry_at(sibling, register) == pre.entry_at(sibling, register),
{
}

/// Law: a mark's coordinates survive the store — the decimal strings a
/// mark write produces are exactly what a mark read accepts, and they read
/// back as the written numbers.
pub proof fn lemma_mark_coordinates_round_trip(line: usize, column: usize)
    ensures
        all_digits(dec_digits(line as nat)),
        dec_digits(line as nat).len() > 0,
        dec_value(dec_digits(line as nat)) == line,
        all_digits(dec_digits(column as nat)),
        dec_digits(column as nat).len() > 0,
        dec_value(dec_digits(column as nat)) == column,
{
    lemma_dec_digits_value(line as nat);
    lemma_dec_digits_value(column as nat);
}

} // verus!
