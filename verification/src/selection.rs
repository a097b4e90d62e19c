//! Selection-level commands, modelled on plain values: a selection is a
//! non-empty list of ranges with a primary index, a range a pair of anchor
//! and head character positions.

use vstd::prelude::*;
use rand::seq::SliceRandom;
use crate::text::{char_is_ws, is_ws};
use crate::util::str_concat;
use vstd::arithmetic::mul::lemma_mul_inequality;

verus! {

/// One selection range: the anchor and the moving head, as character
/// positions; head before anchor means the range faces backward.
#[derive(Clone, Copy, PartialEq, Eq, Structural)]
pub struct SelRange {
    pub anchor: usize,
    pub head: usize,
}

impl SelRange {
    /// The smaller endpoint.
    pub open spec fn lo(self) -> int {
        if self.anchor <= self.head {
            self.anchor as int
        } else {
            self.head as int
        }
    }

    /// The larger endpoint.
    pub open spec fn hi(self) -> int {
        if self.anchor <= self.head {
            self.head as int
        } else {
            self.anchor as int
        }
    }

    /// Whether the range faces forward.
    pub open spec fn forward(self) -> bool {
        self.anchor <= self.head
    }
}

/// A selection: at least one range, one of them primary.
pub struct Selection {
    pub ranges: Vec<SelRange>,
    pub primary_index: usize,
}

impl Selection {
    pub open spec fn wf(self) -> bool {
        self.ranges@.len() > 0 && self.primary_index < self.ranges@.len()
    }
}

/// The number of selection ranges, for the status line.
pub fn count_selections(sel: &Selection) -> (r: usize)
    ensures
        r == sel.ranges@.len(),
{
    sel.ranges.len()
}

/// Makes the first range primary.
pub fn goto_first_selection(sel: &mut Selection)
    requires
        old(sel).wf(),
    ensures
        final(sel).ranges == old(sel).ranges,
        final(sel).primary_index == 0,
        final(sel).wf(),
{
    sel.primary_index = 0;
}

/// Makes the last range primary.
pub fn goto_last_selection(sel: &mut Selection)
    requires
        old(sel).wf(),
    ensures
        final(sel).ranges == old(sel).ranges,
        final(sel).primary_index == old(sel).ranges@.len() - 1,
        final(sel).wf(),
{
    let len = sel.ranges.len();
    sel.primary_index = len - 1;
}

/// What toggling line-selection does next.
#[derive(Clone, Copy, PartialEq, Eq, Structural, Debug)]
pub enum LineSelectAction {
    TrimSelections,
    ExtendToLineBounds,
}

/// The decision on the primary range's text: all-whitespace text extends to
/// line bounds; text with a whitespace edge is trimmed; anything else
/// extends.
pub open spec fn line_select_decision(s: Seq<char>) -> LineSelectAction {
    if forall|i: int| 0 <= i < s.len() ==> is_ws(#[trigger] s[i]) {
        LineSelectAction::ExtendToLineBounds
    } else if is_ws(s[0]) || is_ws(s[s.len() - 1]) {
        LineSelectAction::TrimSelections
    } else {
        LineSelectAction::ExtendToLineBounds
    }
}

/// Decides between trimming the selections and extending them to line
/// bounds, from the primary range's text.
pub fn toggle_line_select(primary_text: &str) -> (r: LineSelectAction)
    ensures
        r == line_select_decision(primary_text@),
{
    let n = primary_text.unicode_len();
    let mut i: usize = 0;
    let mut all_ws = true;
    while i < n
        invariant
            i <= n,
            n == primary_text@.len(),
            all_ws == forall|j: int| 0 <= j < i ==> is_ws(#[trigger] primary_text@[j]),
        decreases n - i,
    {
        if !char_is_ws(primary_text.get_char(i)) {
            all_ws = false;
        }
        i = i + 1;
    }
    if all_ws {
        return LineSelectAction::ExtendToLineBounds;
    }
    let first_ws = char_is_ws(primary_text.get_char(0));
    let last_ws = char_is_ws(primary_text.get_char(n - 1));
    if first_ws || last_ws {
        LineSelectAction::TrimSelections
    } else {
        LineSelectAction::ExtendToLineBounds
    }
}

/// One text edit: replace the characters of [from, to) by the insertion.
pub struct TextChange {
    pub from: usize,
    pub to: usize,
    pub insert: String,
}

/// The opening tag for the typed element name.
pub open spec fn tag_open(input: Seq<char>) -> Seq<char> {
    seq!['<'] + input + seq!['>']
}

/// The closing tag for the typed element name.
pub open spec fn tag_close(input: Seq<char>) -> Seq<char> {
    seq!['<', '/'] + input + seq!['>']
}

/// The number of characters the two tags add around one range.
pub open spec fn surround_width(input: Seq<char>) -> int {
    2 * input.len() as int + 5
}

/// Builds the edits that wrap every selection range in an opening and a
/// closing tag, and the selection that covers the wrapped ranges, each
/// shifted by the tags inserted before it.
pub fn surround_add_tag(input: &str, sel: &Selection, text_len: usize) -> (r: (
    Vec<TextChange>,
    Selection,
))
    requires
        sel.wf(),
        forall|i: int|
            0 <= i < sel.ranges@.len() ==> #[trigger] sel.ranges@[i].hi() <= text_len,
        2 * input@.len() + 5 <= usize::MAX,
        text_len + sel.ranges@.len() * (2 * input@.len() + 5) <= usize::MAX,
    ensures
        r.0@.len() == 2 * sel.ranges@.len(),
        forall|i: int|
            0 <= i < sel.ranges@.len() ==> {
                &&& (#[trigger] r.0@[2 * i]).from == sel.ranges@[i].lo()
                &&& r.0@[2 * i].to == sel.ranges@[i].lo()
                &&& r.0@[2 * i].insert@ == tag_open(input@)
                &&& r.0@[2 * i + 1].from == sel.ranges@[i].hi()
                &&& r.0@[2 * i + 1].to == sel.ranges@[i].hi()
                &&& r.0@[2 * i + 1].insert@ == tag_close(input@)
            },
        r.1.ranges@.len() == sel.ranges@.len(),
        r.1.primary_index == sel.primary_index,
        r.1.wf(),
        forall|i: int|
            0 <= i < sel.ranges@.len() ==> {
                let lo = i * surround_width(input@) + sel.ranges@[i].lo();
                let hi = i * surround_width(input@) + sel.ranges@[i].hi() + surround_width(
                    input@,
                );
                if sel.ranges@[i].forward() {
                    (#[trigger] r.1.ranges@[i]).anchor == lo && r.1.ranges@[i].head == hi
                } else {
                    r.1.ranges@[i].anchor == hi && r.1.ranges@[i].head == lo
                }
            },
{
    proof {
        reveal_strlit("<");
        reveal_strlit(">");
        reveal_strlit("</");
    }
    let open_tag = str_concat(str_concat("<", input).as_str(), ">");
    let close_tag = str_concat(str_concat("</", input).as_str(), ">");
    proof {
        assert(open_tag@ =~= tag_open(input@));
        assert(close_tag@ =~= tag_close(input@));
    }
    let il = input.unicode_len();
    let sl = 2 * il + 5;
    let n = sel.ranges.len();
    let mut changes: Vec<TextChange> = Vec::new();
    let mut new_ranges: Vec<SelRange> = Vec::new();
    let mut offs: usize = 0;
    let mut i: usize = 0;
    while i < n
        invariant
            i <= n,
            n == sel.ranges@.len(),
            sl == surround_width(input@),
            offs == i * sl,
            text_len + n * sl <= usize::MAX,
            forall|k: int| 0 <= k < n ==> #[trigger] sel.ranges@[k].hi() <= text_len,
            open_tag@ == tag_open(input@),
            close_tag@ == tag_close(input@),
            changes@.len() == 2 * i,
            new_ranges@.len() == i,
            forall|k: int|
                0 <= k < i ==> {
                    &&& (#[trigger] changes@[2 * k]).from == sel.ranges@[k].lo()
                    &&& changes@[2 * k].to == sel.ranges@[k].lo()
                    &&& changes@[2 * k].insert@ == tag_open(input@)
                    &&& changes@[2 * k + 1].from == sel.ranges@[k].hi()
                    &&& changes@[2 * k + 1].to == sel.ranges@[k].hi()
                    &&& changes@[2 * k + 1].insert@ == tag_close(input@)
                },
            forall|k: int|
                0 <= k < i ==> {
                    let lo = k * surround_width(input@) + sel.ranges@[k].lo();
                    let hi = k * surround_width(input@) + sel.ranges@[k].hi() + surround_width(
                        input@,
                    );
                    if sel.ranges@[k].forward() {
                        (#[trigger] new_ranges@[k]).anchor == lo && new_ranges@[k].head == hi
                    } else {
                        new_ranges@[k].anchor == hi && new_ranges@[k].head == lo
                    }
                },
        decreases n - i,
    {
        proof {
            lemma_mul_inequality(i as int + 1, n as int, sl as int);
            assert((i as int + 1) * (sl as int) == i as int * (sl as int) + sl as int)
                by (nonlinear_arith);
        }
        let rg = sel.ranges[i];
        let (lo, hi) = if rg.anchor <= rg.head {
            (rg.anchor, rg.head)
        } else {
            (rg.head, rg.anchor)
        };
        proof {
            assert(rg == sel.ranges@[i as int]);
            assert(hi as int == sel.ranges@[i as int].hi());
            assert(sel.ranges@[i as int].hi() <= text_len);
            assert(offs + hi + sl <= text_len + (i as int + 1) * (sl as int));
        }
        changes.push(TextChange { from: lo, to: lo, insert: open_tag.clone() });
        changes.push(TextChange { from: hi, to: hi, insert: close_tag.clone() });
        let new_lo = offs + lo;
        let new_hi = offs + hi + sl;
        let new_rg = if rg.anchor <= rg.head {
            SelRange { anchor: new_lo, head: new_hi }
        } else {
            SelRange { anchor: new_hi, head: new_lo }
        };
        new_ranges.push(new_rg);
        offs = offs + sl;
        i = i + 1;
    }
    let out_sel = Selection { ranges: new_ranges, primary_index: sel.primary_index };
    (changes, out_sel)
}

/// Relies on rand's `SliceRandom::shuffle`: it permutes the slice in
/// place, drawing the permutation from the thread's generator.
#[verifier::external_body]
fn shuffle_strings(v: &mut Vec<String>)
    ensures
        final(v)@.len() == old(v)@.len(),
        final(v)@.to_multiset() == old(v)@.to_multiset(),
{
    v.shuffle(&mut rand::rng());
}

/// Builds the edits that replace each range's text by one of the fragments,
/// the fragments shuffled among the ranges: each range keeps its place, and
/// the inserted texts are the given fragments rearranged.
pub fn random(sel: &Selection, fragments: Vec<String>) -> (r: Vec<TextChange>)
    requires
        sel.wf(),
        fragments@.len() == sel.ranges@.len(),
    ensures
        r@.len() == sel.ranges@.len(),
        forall|i: int|
            0 <= i < sel.ranges@.len() ==> (#[trigger] r@[i]).from == sel.ranges@[i].lo()
                && r@[i].to == sel.ranges@[i].hi(),
        Seq::new(r@.len(), |i: int| r@[i].insert).to_multiset() == fragments@.to_multiset(),
{
    let mut fragments = fragments;
    shuffle_strings(&mut fragments);
    let ghost shuffled = fragments@;
    let n = sel.ranges.len();
    let mut changes: Vec<TextChange> = Vec::new();
    let mut i: usize = 0;
    while i < n
        invariant
            i <= n,
            n == sel.ranges@.len(),
            n == shuffled.len(),
            fragments@ == shuffled.skip(i as int),
            changes@.len() == i,
            forall|k: int|
                0 <= k < i ==> (#[trigger] changes@[k]).from == sel.ranges@[k].lo()
                    && changes@[k].to == sel.ranges@[k].hi(),
            forall|k: int| 0 <= k < i ==> (#[trigger] changes@[k]).insert == shuffled[k],
        decreases n - i,
    {
        let rg = sel.ranges[i];
        let (lo, hi) = if rg.anchor <= rg.head {
            (rg.anchor, rg.head)
        } else {
            (rg.head, rg.anchor)
        };
        let mut rest = fragments.split_off(1);
        let frag = match fragments.pop() {
            Some(frag) => frag,
            None => {
                proof {
                    assert(false);
                }
                String::new()
            },
        };
        proof {
            assert(shuffled.skip(i as int)[0] == shuffled[i as int]);
            assert(shuffled.skip(i as int).skip(1) =~= shuffled.skip(i as int + 1));
        }
        changes.push(TextChange { from: lo, to: hi, insert: frag });
        fragments = rest;
        i = i + 1;
    }
    proof {
        assert(Seq::new(changes@.len(), |k: int| changes@[k].insert) =~= shuffled);
    }
    changes
}

/// Whether closing the buffer should instead quit: the buffer is unchanged,
/// has no file, and is the only document.
pub fn should_quit_instead(modified: bool, has_path: bool, doc_count: usize) -> (r: bool)
    ensures
        r == (!modified && !has_path && doc_count <= 1),
{
    !modified && !has_path && doc_count <= 1
}

} // verus!
