//! Deriving a concrete section name from a logical section name, a
//! relativity scope and the editor context, including the reentrant form
//! that reads a one-character relativity prefix off the register input and
//! falls back to the last persisted default.

use vstd::prelude::*;
use crate::access::{harp_update, HarpOutput};
use crate::entry::{EntrySnap, HarpContract, HarpInput, RecordSnap};
use crate::errors::HarpError;
use crate::store::Store;
use crate::util::str_concat;

verus! {

/// The scoping rule used to derive a concrete section name.
#[derive(Clone, Copy, PartialEq, Eq, Structural)]
pub enum Relativity {
    Global,
    Buffer,
    Directory,
    Filetype,
}

/// What the resolver reads from the editor: the current buffer's path (a
/// buffer may have none), the process working directory, and the buffer's
/// language name (absent when undetected).
pub struct ResolveContext {
    pub buffer_path: Option<String>,
    pub cwd: String,
    pub language: Option<String>,
}

/// Mathematical image of a resolve context.
pub struct ContextSnap {
    pub buffer_path: Option<Seq<char>>,
    pub cwd: Seq<char>,
    pub language: Option<Seq<char>>,
}

impl View for ResolveContext {
    type V = ContextSnap;

    open spec fn view(&self) -> ContextSnap {
        ContextSnap {
            buffer_path: match self.buffer_path {
                Some(p) => Some(p@),
                None => None,
            },
            cwd: self.cwd@,
            language: match self.language {
                Some(l) => Some(l@),
                None => None,
            },
        }
    }
}

/// The language used for Filetype scoping when the buffer has none.
pub open spec fn lang_or_default(language: Option<Seq<char>>) -> Seq<char> {
    match language {
        Some(l) => l,
        None => "text"@,
    }
}

/// The concrete section name for a logical base under a relativity scope;
/// `None` exactly when Buffer scoping is asked of a buffer without a path.
pub open spec fn resolved_name(base: Seq<char>, rel: Relativity, ctx: ContextSnap) -> Option<
    Seq<char>,
> {
    match rel {
        Relativity::Global => Some(base),
        Relativity::Buffer => match ctx.buffer_path {
            Some(p) => Some(base + "_"@ + p),
            None => None,
        },
        Relativity::Directory => Some(base + "_"@ + ctx.cwd),
        Relativity::Filetype => Some(base + "!"@ + lang_or_default(ctx.language)),
    }
}

/// Derives the concrete section name, or reports the unpathed buffer.
pub fn resolve(base: &str, rel: Relativity, ctx: &ResolveContext) -> (r: Result<String, HarpError>)
    ensures
        match resolved_name(base@, rel, ctx@) {
            Some(name) => r matches Ok(s) && s@ == name,
            None => r matches Err(e) && e is UnpathedBuffer,
        },
{
    match rel {
        Relativity::Global => Ok(base.to_owned()),
        Relativity::Buffer => {
            match &ctx.buffer_path {
                Some(p) => {
                    let s = str_concat(base, "_");
                    Ok(str_concat(s.as_str(), p.as_str()))
                },
                None => Err(HarpError::UnpathedBuffer),
            }
        },
        Relativity::Directory => {
            let s = str_concat(base, "_");
            Ok(str_concat(s.as_str(), ctx.cwd.as_str()))
        },
        Relativity::Filetype => {
            let s = str_concat(base, "!");
            match &ctx.language {
                Some(l) => Ok(str_concat(s.as_str(), l.as_str())),
                None => Ok(str_concat(s.as_str(), "text")),
            }
        },
    }
}

/// The relativity selected by a one-character token, if the character is
/// one of the four tokens.
pub open spec fn relativity_of_token(c: char) -> Option<Relativity> {
    if c == '\'' {
        Some(Relativity::Global)
    } else if c == ',' {
        Some(Relativity::Buffer)
    } else if c == '.' {
        Some(Relativity::Directory)
    } else if c == ';' {
        Some(Relativity::Filetype)
    } else {
        None
    }
}

/// The word naming a relativity scope in the status line.
pub open spec fn relativity_label(rel: Relativity) -> Seq<char> {
    match rel {
        Relativity::Global => "Global"@,
        Relativity::Buffer => "Buffer"@,
        Relativity::Directory => "Directory"@,
        Relativity::Filetype => "Filetype"@,
    }
}

impl Relativity {
    /// The word shown for this scope in the prompt's status line.
    pub fn label(&self) -> (r: String)
        ensures
            r@ == relativity_label(*self),
    {
        match self {
            Relativity::Global => "Global".to_owned(),
            Relativity::Buffer => "Buffer".to_owned(),
            Relativity::Directory => "Directory".to_owned(),
            Relativity::Filetype => "Filetype".to_owned(),
        }
    }
}

/// Reads a relativity token character.
pub fn token_relativity(c: char) -> (r: Option<Relativity>)
    ensures
        r == relativity_of_token(c),
{
    if c == '\'' {
        Some(Relativity::Global)
    } else if c == ',' {
        Some(Relativity::Buffer)
    } else if c == '.' {
        Some(Relativity::Directory)
    } else if c == ';' {
        Some(Relativity::Filetype)
    } else {
        None
    }
}

/// The bookkeeping section that persists a logical section's default
/// relativity.
pub open spec fn relativity_section(base: Seq<char>) -> Seq<char> {
    base + "!!relativity"@
}

/// Builds the bookkeeping section name for a logical base.
pub fn relativity_section_name(base: &str) -> (r: String)
    ensures
        r@ == relativity_section(base@),
{
    str_concat(base, "!!relativity")
}

/// The default relativity persisted for a logical section: the token stored
/// under register `current` of the bookkeeping section, read as Global
/// whenever the slot is absent or does not hold a single valid token.
pub open spec fn persisted_relativity(store: Store, base: Seq<char>) -> Relativity {
    match store.entry_at(relativity_section(base), "current"@) {
        Some(EntrySnap::Record(rec)) => match rec.extra {
            Some(tok) => if tok.len() == 1 && relativity_of_token(tok[0]) is Some {
                relativity_of_token(tok[0]).unwrap()
            } else {
                Relativity::Global
            },
            None => Relativity::Global,
        },
        _ => Relativity::Global,
    }
}

/// Reads the persisted default relativity of a logical section.
pub fn read_persisted_relativity(store: &Store, base: &str) -> (r: Relativity)
    requires
        store.wf(),
    ensures
        r == persisted_relativity(*store, base@),
{
    let rsec = relativity_section_name(base);
    let out = HarpOutput::build(store, rsec.as_str(), "current", HarpContract::extra());
    match out {
        Ok(out) => {
            match out.extra {
                Some(tok) => {
                    if tok.as_str().unicode_len() == 1 {
                        let c = tok.as_str().get_char(0);
                        match token_relativity(c) {
                            Some(rel) => {
                                proof {
                                    let stored = store.entry_at(
                                        relativity_section(base@),
                                        "current"@,
                                    );
                                    assert(stored matches Some(EntrySnap::Record(rec))
                                        && rec.extra == Some(tok@));
                                }
                                rel
                            },
                            None => Relativity::Global,
                        }
                    } else {
                        Relativity::Global
                    }
                },
                None => Relativity::Global,
            }
        },
        Err(_) => Relativity::Global,
    }
}

/// How one piece of register input was understood.
pub enum EvalOutcome {
    /// The input was a bare relativity token: the new default was persisted
    /// and no (section, register) pair results; the caller waits for the
    /// next input.
    DefaultChanged,
    /// A concrete section name and register key.
    Resolved { section: String, register: String },
    /// Resolution needed a buffer path the current buffer lacks.
    Failed(HarpError),
}

/// The record stored when a bare token updates a section's default
/// relativity.
pub open spec fn relativity_record(token: Seq<char>) -> RecordSnap {
    RecordSnap { path: None, line: None, column: None, extra: Some(token) }
}

/// How a piece of register input is understood against a store and context:
/// a bare token, a (section, register) pair, or a failed Buffer resolution.
pub enum EvalKind {
    Bare,
    Keyed(Seq<char>, Seq<char>),
    Unpathed,
}

/// The meaning of register input for a logical section: the case analysis
/// behind `eval_harp_relativity`.
pub open spec fn eval_kind(
    store: Store,
    ctx: ContextSnap,
    base: Seq<char>,
    input: Seq<char>,
) -> EvalKind {
    if input.len() == 1 && relativity_of_token(input[0]) is Some {
        EvalKind::Bare
    } else {
        let rel = if input.len() > 0 && relativity_of_token(input[0]) is Some {
            relativity_of_token(input[0]).unwrap()
        } else {
            persisted_relativity(store, base)
        };
        let key = if input.len() > 0 && relativity_of_token(input[0]) is Some {
            input.subrange(1, input.len() as int)
        } else {
            input
        };
        match resolved_name(base, rel, ctx) {
            Some(name) => EvalKind::Keyed(name, key),
            None => EvalKind::Unpathed,
        }
    }
}

/// Interprets register input for a logical section: a bare relativity token
/// persists a new default; a token prefix scopes the rest of the input; and
/// unprefixed input is scoped by the persisted default (Global when none was
/// ever persisted).
pub fn eval_harp_relativity(
    store: &mut Store,
    ctx: &ResolveContext,
    section_name: &str,
    register_input: &str,
) -> (r: EvalOutcome)
    requires
        old(store).wf(),
        section_name@.len() > 0,
        register_input@.len() > 0,
    ensures
        final(store).wf(),
        ({
            let input = register_input@;
            let base = section_name@;
            match eval_kind(*old(store), ctx@, base, input) {
                EvalKind::Bare => {
                    &&& r is DefaultChanged
                    &&& forall|s: Seq<char>, rg: Seq<char>|
                        #[trigger] final(store).entry_at(s, rg) == if s == relativity_section(
                            base,
                        ) && rg == "current"@ {
                            Some(EntrySnap::Record(relativity_record(input)))
                        } else {
                            old(store).entry_at(s, rg)
                        }
                },
                EvalKind::Keyed(name, key) => {
                    &&& *final(store) == *old(store)
                    &&& r matches EvalOutcome::Resolved { section, register } && section@ == name
                        && register@ == key
                },
                EvalKind::Unpathed => {
                    &&& *final(store) == *old(store)
                    &&& r matches EvalOutcome::Failed(e) && e is UnpathedBuffer
                },
            }
        }),
{
    let c = register_input.get_char(0);
    let n = register_input.unicode_len();
    match token_relativity(c) {
        Some(rel0) => {
            if n == 1 {
                let rsec = relativity_section_name(section_name);
                proof {
                    reveal_strlit("current");
                    assert(register_input@ =~= seq![register_input@[0]]);
                }
                harp_update(
                    store,
                    rsec.as_str(),
                    "current",
                    HarpInput::with_extra(register_input.to_owned()),
                );
                EvalOutcome::DefaultChanged
            } else {
                let rest = register_input.substring_char(1, n);
                match resolve(section_name, rel0, ctx) {
                    Ok(sec) => EvalOutcome::Resolved { section: sec, register: rest.to_owned() },
                    Err(e) => EvalOutcome::Failed(e),
                }
            }
        },
        None => {
            let rel = read_persisted_relativity(store, section_name);
            match resolve(section_name, rel, ctx) {
                Ok(sec) => EvalOutcome::Resolved {
                    section: sec,
                    register: register_input.to_owned(),
                },
                Err(e) => EvalOutcome::Failed(e),
            }
        },
    }
}

} // verus!
