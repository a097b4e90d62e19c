//! The payload of one register: an ordered list of strings, or a structured
//! record with optional `path`, `line`, `column` and `extra` fields. The two
//! shapes coexist across sections but are never mixed within one register.

use vstd::prelude::*;
use crate::errors::MissingFields;
use crate::util::{clone_opt_string, clone_string_vec};

verus! {

/// Record-form payload, as stored.
pub struct HarpRecord {
    pub path: Option<String>,
    pub line: Option<i32>,
    pub column: Option<i32>,
    pub extra: Option<String>,
}

/// Mathematical image of a record: optional character sequences and
/// unbounded integers.
pub struct RecordSnap {
    pub path: Option<Seq<char>>,
    pub line: Option<int>,
    pub column: Option<int>,
    pub extra: Option<Seq<char>>,
}

impl View for HarpRecord {
    type V = RecordSnap;

    open spec fn view(&self) -> RecordSnap {
        RecordSnap {
            path: match self.path {
                Some(s) => Some(s@),
                None => None,
            },
            line: match self.line {
                Some(n) => Some(n as int),
                None => None,
            },
            column: match self.column {
                Some(n) => Some(n as int),
                None => None,
            },
            extra: match self.extra {
                Some(s) => Some(s@),
                None => None,
            },
        }
    }
}

/// One register's stored payload.
pub enum Entry {
    List(Vec<String>),
    Record(HarpRecord),
}

/// Mathematical image of an entry.
pub enum EntrySnap {
    List(Seq<Seq<char>>),
    Record(RecordSnap),
}

impl View for Entry {
    type V = EntrySnap;

    open spec fn view(&self) -> EntrySnap {
        match self {
            Entry::List(values) => EntrySnap::List(values.deep_view()),
            Entry::Record(record) => EntrySnap::Record(record@),
        }
    }
}

impl Entry {
    /// A copy of this entry holding the same payload.
    pub fn duplicate(&self) -> (r: Entry)
        ensures
            r@ == self@,
    {
        match self {
            Entry::List(values) => Entry::List(clone_string_vec(values)),
            Entry::Record(record) => Entry::Record(record.duplicate()),
        }
    }
}

impl HarpRecord {
    /// A copy of this record holding the same fields.
    pub fn duplicate(&self) -> (r: HarpRecord)
        ensures
            r@ == self@,
    {
        let r = HarpRecord {
            path: clone_opt_string(&self.path),
            line: match self.line {
                Some(n) => Some(n),
                None => None,
            },
            column: match self.column {
                Some(n) => Some(n),
                None => None,
            },
            extra: clone_opt_string(&self.extra),
        };
        r
    }
}

/// The fields a set operation supplies; absent fields are stored as absent.
pub struct HarpInput {
    pub path: Option<String>,
    pub line: Option<i32>,
    pub column: Option<i32>,
    pub extra: Option<String>,
}

impl View for HarpInput {
    type V = RecordSnap;

    open spec fn view(&self) -> RecordSnap {
        RecordSnap {
            path: match self.path {
                Some(s) => Some(s@),
                None => None,
            },
            line: match self.line {
                Some(n) => Some(n as int),
                None => None,
            },
            column: match self.column {
                Some(n) => Some(n as int),
                None => None,
            },
            extra: match self.extra {
                Some(s) => Some(s@),
                None => None,
            },
        }
    }
}

impl HarpInput {
    /// An input with every field absent.
    pub fn empty() -> (r: HarpInput)
        ensures
            r.path is None,
            r.line is None,
            r.column is None,
            r.extra is None,
    {
        HarpInput { path: None, line: None, column: None, extra: None }
    }

    /// An input carrying only an `extra` value.
    pub fn with_extra(extra: String) -> (r: HarpInput)
        ensures
            r.path is None,
            r.line is None,
            r.column is None,
            r.extra matches Some(s) && s@ == extra@,
    {
        HarpInput { path: None, line: None, column: None, extra: Some(extra) }
    }

    /// An input carrying only a `path` value.
    pub fn with_path(path: String) -> (r: HarpInput)
        ensures
            r.path matches Some(s) && s@ == path@,
            r.line is None,
            r.column is None,
            r.extra is None,
    {
        HarpInput { path: Some(path), line: None, column: None, extra: None }
    }

    /// The record this input stores.
    pub fn into_record(self) -> (r: HarpRecord)
        ensures
            r.path == self.path,
            r.line == self.line,
            r.column == self.column,
            r.extra == self.extra,
    {
        HarpRecord { path: self.path, line: self.line, column: self.column, extra: self.extra }
    }
}

impl Default for HarpInput {
    /// An input with every field absent.
    fn default() -> (r: HarpInput)
        ensures
            r.path is None,
            r.line is None,
            r.column is None,
            r.extra is None,
    {
        HarpInput { path: None, line: None, column: None, extra: None }
    }
}

/// Which record fields a reader requires present.
#[derive(Clone, Copy, PartialEq, Eq, Structural)]
pub struct HarpContract {
    pub path: bool,
    pub line: bool,
    pub column: bool,
    pub extra: bool,
}

impl HarpContract {
    /// A contract requiring only the `path` field.
    pub fn path() -> (r: HarpContract)
        ensures
            r == (HarpContract { path: true, line: false, column: false, extra: false }),
    {
        HarpContract { path: true, line: false, column: false, extra: false }
    }

    /// A contract requiring only the `extra` field.
    pub fn extra() -> (r: HarpContract)
        ensures
            r == (HarpContract { path: false, line: false, column: false, extra: true }),
    {
        HarpContract { path: false, line: false, column: false, extra: true }
    }

    /// The fields this contract requires that the given record lacks.
    pub open spec fn missing_from(self, record: RecordSnap) -> MissingFields {
        MissingFields {
            path: self.path && record.path is None,
            line: self.line && record.line is None,
            column: self.column && record.column is None,
            extra: self.extra && record.extra is None,
        }
    }
}

impl Default for HarpContract {
    /// A contract requiring no field.
    fn default() -> (r: HarpContract)
        ensures
            r == (HarpContract { path: false, line: false, column: false, extra: false }),
    {
        HarpContract { path: false, line: false, column: false, extra: false }
    }
}

} // verus!
