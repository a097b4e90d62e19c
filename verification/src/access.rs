//! Reading and writing register payloads: the list-form accessors that the
//! keypress commands use, and the record-form accessors guarded by a
//! contract of required fields.

use vstd::prelude::*;
use crate::entry::{Entry, EntrySnap, HarpContract, HarpInput};
use crate::errors::{ArityIssue, HarpError, MissingFields};
use crate::store::Store;
use crate::util::{clone_opt_string, clone_string_vec};

verus! {

/// Clears the register and stores exactly `values`, creating the section
/// and the register as needed.
pub fn harp_replace(store: &mut Store, section: &str, register: &str, values: Vec<String>)
    requires
        old(store).wf(),
        section@.len() > 0,
        register@.len() > 0,
    ensures
        final(store).wf(),
        forall|s: Seq<char>, rg: Seq<char>|
            #[trigger] final(store).entry_at(s, rg) == if s == section@ && rg == register@ {
                Some(EntrySnap::List(values.deep_view()))
            } else {
                old(store).entry_at(s, rg)
            },
        forall|s: Seq<char>|
            #[trigger] final(store).has_section(s) == (s == section@
                || old(store).has_section(s)),
{
    store.set_entry(section, register, Entry::List(values));
}

/// Stores the given record fields under (section, register), replacing
/// whatever the register held.
pub fn harp_update(store: &mut Store, section: &str, register: &str, values: HarpInput)
    requires
        old(store).wf(),
        section@.len() > 0,
        register@.len() > 0,
    ensures
        final(store).wf(),
        forall|s: Seq<char>, rg: Seq<char>|
            #[trigger] final(store).entry_at(s, rg) == if s == section@ && rg == register@ {
                Some(EntrySnap::Record(values@))
            } else {
                old(store).entry_at(s, rg)
            },
        forall|s: Seq<char>|
            #[trigger] final(store).has_section(s) == (s == section@
                || old(store).has_section(s)),
{
    let ghost values_snap = values@;
    let record = values.into_record();
    assert(record@ == values_snap);
    store.set_entry(section, register, Entry::Record(record));
}

/// What a list-form read owes for each state of the register: the values
/// exactly when the register holds a non-empty list of the expected length,
/// and the error naming the failure otherwise.
pub open spec fn list_read_post(
    stored: Option<EntrySnap>,
    expected: int,
    section: Seq<char>,
    register: Seq<char>,
    r: Result<Vec<String>, HarpError>,
) -> bool {
    match stored {
        None => r matches Err(e) && unset_error(e, section, register),
        Some(EntrySnap::Record(_)) => r matches Err(e) && e matches HarpError::FormatError { .. },
        Some(EntrySnap::List(vals)) => if vals.len() == 0 {
            r matches Err(e) && unset_error(e, section, register)
        } else if vals.len() != expected {
            r matches Err(e) && wrong_count_error(e, section, register, expected, vals.len() as int)
        } else {
            r matches Ok(v) && v.deep_view() == vals
        },
    }
}

/// The error for a register that is absent or empty.
pub open spec fn unset_error(e: HarpError, section: Seq<char>, register: Seq<char>) -> bool {
    e matches HarpError::RegisterUnset { section: es, register: er } && es@ == section && er@
        == register
}

/// The error for a list register holding the wrong number of values.
pub open spec fn wrong_count_error(
    e: HarpError,
    section: Seq<char>,
    register: Seq<char>,
    expected: int,
    actual: int,
) -> bool {
    e matches HarpError::ArityMismatch { section: es, register: er, issue } && es@ == section
        && er@ == register && (issue matches ArityIssue::WrongCount { expected: xe, actual: xa }
        && xe == expected && xa == actual)
}

/// Reads the list stored under (section, register), requiring exactly
/// `expected` values; an absent or empty register is unset, a wrong count is
/// an arity mismatch.
pub fn harp_get(store: &Store, expected: usize, section: &str, register: &str) -> (r: Result<
    Vec<String>,
    HarpError,
>)
    requires
        store.wf(),
        expected > 0,
    ensures
        list_read_post(store.entry_at(section@, register@), expected as int, section@, register@, r),
{
    let entry = match store.get_entry(section, register) {
        Some(e) => e,
        None => {
            return Err(
                HarpError::RegisterUnset {
                    section: section.to_owned(),
                    register: register.to_owned(),
                },
            );
        },
    };
    let values = match entry {
        Entry::Record(_) => {
            return Err(
                HarpError::FormatError { message: "expected a list-form register".to_owned() },
            );
        },
        Entry::List(values) => values,
    };
    if values.len() == 0 {
        return Err(
            HarpError::RegisterUnset { section: section.to_owned(), register: register.to_owned() },
        );
    }
    if values.len() != expected {
        return Err(
            HarpError::ArityMismatch {
                section: section.to_owned(),
                register: register.to_owned(),
                issue: ArityIssue::WrongCount { expected, actual: values.len() },
            },
        );
    }
    let r = clone_string_vec(values);
    Ok(r)
}

/// Reads the single value stored under (section, register); the register
/// must hold exactly one value.
pub fn harp_get_one(store: &Store, section: &str, register: &str) -> (r: Result<String, HarpError>)
    requires
        store.wf(),
    ensures
        match store.entry_at(section@, register@) {
            None => r matches Err(e) && unset_error(e, section@, register@),
            Some(EntrySnap::Record(_)) => r matches Err(e) && e matches HarpError::FormatError {
                ..
            },
            Some(EntrySnap::List(vals)) => if vals.len() == 0 {
                r matches Err(e) && unset_error(e, section@, register@)
            } else if vals.len() != 1 {
                r matches Err(e) && wrong_count_error(e, section@, register@, 1, vals.len() as int)
            } else {
                r matches Ok(v) && v@ == vals[0]
            },
        },
{
    let mut values = match harp_get(store, 1, section, register) {
        Ok(values) => values,
        Err(e) => {
            return Err(e);
        },
    };
    let v = match values.pop() {
        Some(v) => v,
        None => {
            // unreachable: harp_get returned exactly one value
            return Err(
                HarpError::RegisterUnset {
                    section: section.to_owned(),
                    register: register.to_owned(),
                },
            );
        },
    };
    Ok(v)
}

/// Record-form view of a register, restricted to a contract's required
/// fields.
pub struct HarpOutput {
    pub path: Option<String>,
    pub extra: Option<String>,
}

impl HarpOutput {
    /// Builds the view of (section, register) demanded by `contract`: fails
    /// with the register named if it is absent, and with the exact set of
    /// missing fields if the stored record falls short — a missing field is
    /// never filled with a default.
    pub fn build(store: &Store, section: &str, register: &str, contract: HarpContract) -> (r:
        Result<HarpOutput, HarpError>)
        requires
            store.wf(),
        ensures
            match store.entry_at(section@, register@) {
                None => r matches Err(e) && unset_error(e, section@, register@),
                Some(EntrySnap::List(_)) => r matches Err(e)
                    && e matches HarpError::FormatError { .. },
                Some(EntrySnap::Record(rec)) => if contract.missing_from(rec).any() {
                    r matches Err(e) && (e matches HarpError::ArityMismatch {
                        section: es,
                        register: er,
                        issue,
                    } && es@ == section@ && er@ == register@
                        && (issue matches ArityIssue::MissingFields(m)
                        && m == contract.missing_from(rec)))
                } else {
                    r matches Ok(out) && out.path.deep_view() == (if contract.path {
                        rec.path
                    } else {
                        None
                    }) && out.extra.deep_view() == (if contract.extra {
                        rec.extra
                    } else {
                        None
                    })
                },
            },
    {
        let entry = match store.get_entry(section, register) {
            Some(e) => e,
            None => {
                return Err(
                    HarpError::RegisterUnset {
                        section: section.to_owned(),
                        register: register.to_owned(),
                    },
                );
            },
        };
        let record = match entry {
            Entry::List(_) => {
                return Err(
                    HarpError::FormatError {
                        message: "expected a record-form register".to_owned(),
                    },
                );
            },
            Entry::Record(record) => record,
        };
        let missing = MissingFields {
            path: contract.path && record.path.is_none(),
            line: contract.line && record.line.is_none(),
            column: contract.column && record.column.is_none(),
            extra: contract.extra && record.extra.is_none(),
        };
        if missing.path || missing.line || missing.column || missing.extra {
            return Err(
                HarpError::ArityMismatch {
                    section: section.to_owned(),
                    register: register.to_owned(),
                    issue: ArityIssue::MissingFields(missing),
                },
            );
        }
        let path = if contract.path {
            clone_opt_string(&record.path)
        } else {
            None
        };
        let extra = if contract.extra {
            clone_opt_string(&record.extra)
        } else {
            None
        };
        Ok(HarpOutput { path, extra })
    }
}

} // verus!
