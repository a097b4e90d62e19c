//! The preview shown before each prompt: register keys listed in
//! lexicographic order for determinism, and the single column width taken
//! from the longest formatted value.

use vstd::prelude::*;
use crate::store::{sec_regs, RegisterSlot, Store};

verus! {

/// Lexicographic order on character sequences, by code point.
pub open spec fn lex_le(a: Seq<char>, b: Seq<char>) -> bool
    decreases a.len(),
{
    if a.len() == 0 {
        true
    } else if b.len() == 0 {
        false
    } else if (a[0] as u32) < (b[0] as u32) {
        true
    } else if (b[0] as u32) < (a[0] as u32) {
        false
    } else {
        lex_le(a.drop_first(), b.drop_first())
    }
}

/// Any two strings are ordered one way or the other.
proof fn lemma_lex_total(a: Seq<char>, b: Seq<char>)
    ensures
        lex_le(a, b) || lex_le(b, a),
    decreases a.len(),
{
    if a.len() > 0 && b.len() > 0 && !((a[0] as u32) < (b[0] as u32)) && !((b[0] as u32) < (
    a[0] as u32)) {
        lemma_lex_total(a.drop_first(), b.drop_first());
    }
}

/// Compares two strings lexicographically.
pub fn str_lex_le(a: &str, b: &str) -> (r: bool)
    ensures
        r == lex_le(a@, b@),
{
    let an = a.unicode_len();
    let bn = b.unicode_len();
    let mut i: usize = 0;
    proof {
        assert(a@.skip(0) =~= a@);
        assert(b@.skip(0) =~= b@);
    }
    while i < an && i < bn
        invariant
            i <= an,
            i <= bn,
            an == a@.len(),
            bn == b@.len(),
            lex_le(a@, b@) == lex_le(a@.skip(i as int), b@.skip(i as int)),
        decreases an - i,
    {
        let ca = a.get_char(i);
        let cb = b.get_char(i);
        proof {
            assert(a@.skip(i as int)[0] == a@[i as int]);
            assert(b@.skip(i as int)[0] == b@[i as int]);
            assert(a@.skip(i as int).drop_first() =~= a@.skip(i as int + 1));
            assert(b@.skip(i as int).drop_first() =~= b@.skip(i as int + 1));
        }
        if (ca as u32) < (cb as u32) {
            return true;
        }
        if (cb as u32) < (ca as u32) {
            return false;
        }
        i = i + 1;
    }
    proof {
        if i == an {
            assert(a@.skip(i as int).len() == 0);
        } else {
            assert(b@.skip(i as int).len() == 0);
            assert(a@.skip(i as int).len() > 0);
        }
    }
    an <= bn
}

/// Sorts register keys lexicographically: the result is ordered and holds
/// exactly the given keys.
pub fn sort_keys(keys: Vec<String>) -> (r: Vec<String>)
    ensures
        r@.len() == keys@.len(),
        forall|i: int, j: int| 0 <= i < j < r@.len() ==> lex_le(r@[i]@, r@[j]@),
        r@.to_multiset() == keys@.to_multiset(),
{
    let total = keys.len();
    let mut keys = keys;
    let mut r: Vec<String> = Vec::new();
    let ghost all = keys@;
    let mut taken: usize = 0;
    proof {
        assert(all.skip(0) =~= all);
        assert(r@ =~= all.subrange(0, 0));
    }
    while keys.len() > 0
        invariant
            taken + keys@.len() == total,
            total == all.len(),
            keys@ == all.skip(taken as int),
            r@.len() == taken,
            forall|i: int, j: int| 0 <= i < j < r@.len() ==> lex_le(r@[i]@, r@[j]@),
            r@.to_multiset() == all.subrange(0, taken as int).to_multiset(),
        decreases keys@.len(),
    {
        let ghost r0 = r@;
        let mut rest = keys.split_off(1);
        let key = match keys.pop() {
            Some(key) => key,
            None => {
                proof {
                    assert(false);
                }
                String::new()
            },
        };
        proof {
            assert(all.skip(taken as int)[0] == all[taken as int]);
            assert(all.skip(taken as int).skip(1) =~= all.skip(taken as int + 1));
        }
        let mut j: usize = 0;
        while j < r.len() && str_lex_le(r[j].as_str(), key.as_str())
            invariant
                j <= r@.len(),
                r@ == r0,
                forall|k: int| 0 <= k < j ==> lex_le(r@[k]@, key@),
            decreases r@.len() - j,
        {
            j = j + 1;
        }
        let ghost keyg = key;
        r.insert(j, key);
        proof {
            broadcast use vstd::seq_lib::group_to_multiset_ensures;

            let rn = r@;
            assert(rn == r0.insert(j as int, keyg));
            assert forall|m: int| j <= m < r0.len() implies lex_le(keyg@, r0[m]@) by {
                lemma_lex_total(r0[j as int]@, keyg@);
                if m > j {
                    lemma_lex_trans(keyg@, r0[j as int]@, r0[m]@);
                }
            };
            assert forall|x: int, y: int| 0 <= x < y < rn.len() implies lex_le(
                rn[x]@,
                rn[y]@,
            ) by {
                if y < j {
                    assert(rn[x] == r0[x] && rn[y] == r0[y]);
                } else if y == j {
                    assert(rn[y] == keyg && rn[x] == r0[x]);
                } else {
                    assert(rn[y] == r0[y - 1]);
                    if x < j {
                        assert(rn[x] == r0[x]);
                        lemma_lex_trans(r0[x]@, keyg@, r0[y - 1]@);
                    } else if x == j {
                        assert(rn[x] == keyg);
                    } else {
                        assert(rn[x] == r0[x - 1]);
                    }
                }
            };
            assert(all.subrange(0, taken as int + 1) =~= all.subrange(0, taken as int).push(
                all[taken as int],
            ));
            vstd::seq_lib::to_multiset_insert(r0, j as int, keyg);
        }
        keys = rest;
        taken = taken + 1;
    }
    proof {
        assert(all.subrange(0, total as int) =~= all);
    }
    r
}

/// Transitivity of the lexicographic order.
proof fn lemma_lex_trans(a: Seq<char>, b: Seq<char>, c: Seq<char>)
    requires
        lex_le(a, b),
        lex_le(b, c),
    ensures
        lex_le(a, c),
    decreases a.len(),
{
    if a.len() > 0 && b.len() > 0 && c.len() > 0 {
        if (a[0] as u32) == (b[0] as u32) && (b[0] as u32) == (c[0] as u32) {
            lemma_lex_trans(a.drop_first(), b.drop_first(), c.drop_first());
        }
    }
}

/// The column width for a preview: the length of the longest formatted
/// value, zero when there is none.
pub fn max_width(vals: &Vec<String>) -> (r: usize)
    ensures
        forall|i: int| 0 <= i < vals@.len() ==> (#[trigger] vals@[i])@.len() <= r,
        vals@.len() > 0 ==> exists|i: int|
            0 <= i < vals@.len() && (#[trigger] vals@[i])@.len() == r,
        vals@.len() == 0 ==> r == 0,
{
    let mut r: usize = 0;
    let mut i: usize = 0;
    while i < vals.len()
        invariant
            i <= vals@.len(),
            forall|k: int| 0 <= k < i ==> (#[trigger] vals@[k])@.len() <= r,
            i > 0 ==> exists|k: int| 0 <= k < i && (#[trigger] vals@[k])@.len() == r,
            i == 0 ==> r == 0,
        decreases vals@.len() - i,
    {
        let l = vals[i].as_str().unicode_len();
        if l > r || i == 0 {
            r = l;
        }
        i = i + 1;
    }
    r
}

/// The keys of a section's preview, in lexicographic order: exactly the
/// registers of the resolved section.
pub fn preview_keys(store: &Store, section: &str) -> (r: Vec<String>)
    requires
        store.wf(),
    ensures
        forall|i: int, j: int| 0 <= i < j < r@.len() ==> lex_le(r@[i]@, r@[j]@),
        match sec_regs(store.sections@, section@) {
            Some(regs) => r@.len() == regs.len() && r@.to_multiset() == Seq::new(
                regs.len(),
                |i: int| regs[i].name,
            ).to_multiset(),
            None => r@.len() == 0,
        },
{
    let names = store.register_names(section);
    proof {
        match sec_regs(store.sections@, section@) {
            Some(regs) => {
                assert(names@ =~= Seq::new(regs.len(), |i: int| regs[i].name));
            },
            None => {},
        }
    }
    sort_keys(names)
}

} // verus!
