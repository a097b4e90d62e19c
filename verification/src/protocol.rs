//! The interactive resolve protocol: one prompting state, advanced by one
//! key at a time. Control keys switch relativity, flip the requested
//! operation or delete; any other key is a literal register key that either
//! deletes or hands (mode, section, register) to the terminal action.

use vstd::prelude::*;
use crate::entry::EntrySnap;
use crate::errors::HarpError;
use crate::resolve::{
    relativity_label, relativity_of_token, resolve, resolved_name, token_relativity, Relativity,
    ResolveContext,
};
use crate::util::{str_concat, str_eq};
use crate::store::Store;

verus! {

/// The requested operation while prompting.
#[derive(Clone, Copy, PartialEq, Eq, Structural)]
pub enum Reciprocation {
    Get,
    Put,
    Delete,
}

impl Reciprocation {
    /// The mode after the toggle key: get and set swap; from Delete,
    /// toggling returns to Get.
    pub open spec fn toggled(self) -> Reciprocation {
        match self {
            Reciprocation::Get => Reciprocation::Put,
            Reciprocation::Put => Reciprocation::Get,
            Reciprocation::Delete => Reciprocation::Get,
        }
    }

    /// Flips the requested operation.
    pub fn toggle(self) -> (r: Self)
        ensures
            r == self.toggled(),
    {
        match self {
            Reciprocation::Get => Reciprocation::Put,
            Reciprocation::Put => Reciprocation::Get,
            Reciprocation::Delete => Reciprocation::Get,
        }
    }

    /// The word shown for this mode in the prompt's status line.
    pub fn label(&self) -> (r: String)
        ensures
            r@ == reciprocation_label(*self),
    {
        match self {
            Reciprocation::Get => "get".to_owned(),
            Reciprocation::Put => "set".to_owned(),
            Reciprocation::Delete => "delete".to_owned(),
        }
    }
}

/// The word naming a mode in the status line.
pub open spec fn reciprocation_label(r: Reciprocation) -> Seq<char> {
    match r {
        Reciprocation::Get => "get"@,
        Reciprocation::Put => "set"@,
        Reciprocation::Delete => "delete"@,
    }
}

/// The status line shown before each prompt: the prompt text, the mode,
/// and the scope in parentheses.
pub fn status_line(prompt: &str, reciprocation: Reciprocation, relativity: Relativity) -> (r:
    String)
    ensures
        r@ == prompt@ + " "@ + reciprocation_label(reciprocation) + " ("@ + relativity_label(
            relativity,
        ) + ")"@,
{
    let s = str_concat(prompt, " ");
    let s = str_concat(s.as_str(), reciprocation.label().as_str());
    let s = str_concat(s.as_str(), " (");
    let s = str_concat(s.as_str(), relativity.label().as_str());
    str_concat(s.as_str(), ")")
}

/// The configurable control keys of the protocol; the four relativity
/// tokens are fixed.
pub struct KeyConfig {
    pub escape: String,
    pub toggle: String,
    pub delete_one: String,
    pub delete_all: String,
}

impl KeyConfig {
    /// The default bindings.
    pub fn standard() -> (r: KeyConfig)
        ensures
            r.escape@ == "<esc>"@,
            r.toggle@ == "<space>"@,
            r.delete_one@ == "<del>"@,
            r.delete_all@ == "<backspace>"@,
    {
        KeyConfig {
            escape: "<esc>".to_owned(),
            toggle: "<space>".to_owned(),
            delete_one: "<del>".to_owned(),
            delete_all: "<backspace>".to_owned(),
        }
    }
}

/// One prompting state: the relativity and mode shown, over a logical
/// section.
pub struct PromptState {
    pub relativity: Relativity,
    pub reciprocation: Reciprocation,
    pub section: String,
}

/// What one keypress did.
pub enum StepOutcome {
    /// A control key updated the prompting state; prompt again.
    Continue,
    /// The store changed (a delete) and must be persisted; prompt again.
    ContinueSaved,
    /// Escape: the interaction is over, nothing was invoked.
    Cancelled,
    /// A literal register key ends the prompt: the terminal action runs
    /// with this mode, resolved section and register key (get applies the
    /// stored value, set captures and stores the current one).
    Invoke { reciprocation: Reciprocation, section: String, register: String },
    /// Resolution needed a buffer path the current buffer lacks.
    Failed(HarpError),
}

/// Advances the protocol by one key. Escape always terminates without
/// invoking anything and without touching the store; delete and delete-all
/// mutate the store at once and ask the caller to persist it.
pub fn harp_resolve_step(
    state: &mut PromptState,
    store: &mut Store,
    ctx: &ResolveContext,
    keys: &KeyConfig,
    key: &str,
) -> (r: StepOutcome)
    requires
        old(store).wf(),
        old(state).section@.len() > 0,
        key@.len() > 0,
    ensures
        final(store).wf(),
        final(state).section@ == old(state).section@,
        ({
            let k = key@;
            let st0 = *old(state);
            if k == keys.escape@ {
                &&& r is Cancelled
                &&& *final(store) == *old(store)
                &&& *final(state) == st0
            } else if k.len() == 1 && relativity_of_token(k[0]) is Some {
                &&& r is Continue
                &&& *final(store) == *old(store)
                &&& final(state).relativity == relativity_of_token(k[0]).unwrap()
                &&& final(state).reciprocation == st0.reciprocation
            } else if k == keys.toggle@ {
                &&& r is Continue
                &&& *final(store) == *old(store)
                &&& final(state).relativity == st0.relativity
                &&& final(state).reciprocation == st0.reciprocation.toggled()
            } else if k == keys.delete_one@ {
                &&& r is Continue
                &&& *final(store) == *old(store)
                &&& final(state).relativity == st0.relativity
                &&& final(state).reciprocation is Delete
            } else if k == keys.delete_all@ {
                match resolved_name(st0.section@, st0.relativity, ctx@) {
                    Some(name) => {
                        &&& r is ContinueSaved
                        &&& forall|rg: Seq<char>| #[trigger] final(store).entry_at(name, rg)
                            is None
                        &&& forall|s: Seq<char>, rg: Seq<char>|
                            s != name ==> #[trigger] final(store).entry_at(s, rg) == old(
                                store,
                            ).entry_at(s, rg)
                        &&& final(state).relativity == st0.relativity
                        &&& final(state).reciprocation is Put
                    },
                    None => {
                        &&& r matches StepOutcome::Failed(e) && e is UnpathedBuffer
                        &&& *final(store) == *old(store)
                        &&& *final(state) == st0
                    },
                }
            } else {
                match resolved_name(st0.section@, st0.relativity, ctx@) {
                    Some(name) => if st0.reciprocation is Delete {
                        &&& r is ContinueSaved
                        &&& forall|s: Seq<char>, rg: Seq<char>|
                            #[trigger] final(store).entry_at(s, rg) == if s == name && rg == k {
                                None::<EntrySnap>
                            } else {
                                old(store).entry_at(s, rg)
                            }
                        &&& final(state).relativity == st0.relativity
                        &&& final(state).reciprocation is Get
                    } else {
                        &&& r matches StepOutcome::Invoke { reciprocation, section, register }
                            && reciprocation == st0.reciprocation && section@ == name && register@
                            == k
                        &&& *final(store) == *old(store)
                        &&& *final(state) == st0
                    },
                    None => {
                        &&& r matches StepOutcome::Failed(e) && e is UnpathedBuffer
                        &&& *final(store) == *old(store)
                        &&& *final(state) == st0
                    },
                }
            }
        }),
{
    if str_eq(key, keys.escape.as_str()) {
        return StepOutcome::Cancelled;
    }
    if key.unicode_len() == 1 {
        let c = key.get_char(0);
        match token_relativity(c) {
            Some(rel) => {
                proof {
                    assert(key@ =~= seq![key@[0]]);
                }
                state.relativity = rel;
                return StepOutcome::Continue;
            },
            None => {},
        }
    }
    proof {
        if key@.len() == 1 {
            assert(relativity_of_token(key@[0]) is None);
        }
    }
    if str_eq(key, keys.toggle.as_str()) {
        state.reciprocation = state.reciprocation.toggle();
        return StepOutcome::Continue;
    }
    if str_eq(key, keys.delete_one.as_str()) {
        state.reciprocation = Reciprocation::Delete;
        return StepOutcome::Continue;
    }
    if str_eq(key, keys.delete_all.as_str()) {
        let name = match resolve(state.section.as_str(), state.relativity, ctx) {
            Ok(name) => name,
            Err(e) => {
                return StepOutcome::Failed(e);
            },
        };
        store.clear_section(name.as_str());
        state.reciprocation = Reciprocation::Put;
        return StepOutcome::ContinueSaved;
    }
    let name = match resolve(state.section.as_str(), state.relativity, ctx) {
        Ok(name) => name,
        Err(e) => {
            return StepOutcome::Failed(e);
        },
    };
    match state.reciprocation {
        Reciprocation::Delete => {
            let _removed = store.delete_register(name.as_str(), key);
            state.reciprocation = Reciprocation::Get;
            StepOutcome::ContinueSaved
        },
        _ => {
            StepOutcome::Invoke {
                reciprocation: state.reciprocation,
                section: name,
                register: key.to_owned(),
            }
        },
    }
}

} // verus!
