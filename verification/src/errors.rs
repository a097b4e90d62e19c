//! The error taxonomy of the library. Every failure a caller can see is one
//! of these variants; none of the library's verified functions panics.

use vstd::prelude::*;
use crate::util::str_concat;

verus! {

/// Which required record fields were absent when an entry was read against
/// a contract. A `true` flag names a field the contract required and the
/// stored entry lacked.
#[derive(Clone, Copy, PartialEq, Eq, Structural, Debug)]
pub struct MissingFields {
    pub path: bool,
    pub line: bool,
    pub column: bool,
    pub extra: bool,
}

impl MissingFields {
    pub open spec fn any(self) -> bool {
        self.path || self.line || self.column || self.extra
    }
}

/// What made a stored entry fall short of the reader's expectation: required
/// record fields that are absent, or a list holding the wrong number of
/// values.
#[derive(Debug)]
pub enum ArityIssue {
    MissingFields(MissingFields),
    WrongCount { expected: usize, actual: usize },
}

#[derive(Debug)]
pub enum HarpError {
    /// An operation needed the current buffer's file path and it has none.
    UnpathedBuffer,
    /// The requested register is absent from the resolved section.
    RegisterUnset { section: String, register: String },
    /// The stored entry does not carry what the caller's contract requires.
    ArityMismatch { section: String, register: String, issue: ArityIssue },
    /// A source register the set operation reads from is empty.
    WriteTargetUnavailable { target: String },
    /// Stored data is present but not in the shape the reader expects.
    FormatError { message: String },
    /// The backing document could not be read or written.
    IoError { message: String },
}

impl HarpError {
    /// The user-facing status line for this error.
    pub fn message(&self) -> (r: String)
        ensures
            self is UnpathedBuffer ==> r@ == "harp: current buffer doesn't have a path"@,
            self matches HarpError::RegisterUnset { section, register } ==> r@
                == "harp: register `"@ + register@ + "` doesn't exist in section `"@ + section@
                + "`"@,
            self matches HarpError::ArityMismatch { section, register, .. } ==> r@
                == "harp: register `"@ + register@ + "` in section `"@ + section@
                + "` is missing a required field"@,
            self matches HarpError::WriteTargetUnavailable { target } ==> r@
                == "harp: register "@ + target@ + " is empty"@,
            self matches HarpError::FormatError { message } ==> r@ == "harp: "@ + message@,
            self matches HarpError::IoError { message } ==> r@ == "harp: "@ + message@,
    {
        match self {
            HarpError::UnpathedBuffer => "harp: current buffer doesn't have a path".to_owned(),
            HarpError::RegisterUnset { section, register } => {
                let s = str_concat("harp: register `", register.as_str());
                let s = str_concat(s.as_str(), "` doesn't exist in section `");
                let s = str_concat(s.as_str(), section.as_str());
                str_concat(s.as_str(), "`")
            },
            HarpError::ArityMismatch { section, register, issue: _ } => {
                let s = str_concat("harp: register `", register.as_str());
                let s = str_concat(s.as_str(), "` in section `");
                let s = str_concat(s.as_str(), section.as_str());
                str_concat(s.as_str(), "` is missing a required field")
            },
            HarpError::WriteTargetUnavailable { target } => {
                let s = str_concat("harp: register ", target.as_str());
                str_concat(s.as_str(), " is empty")
            },
            HarpError::FormatError { message } => str_concat("harp: ", message.as_str()),
            HarpError::IoError { message } => str_concat("harp: ", message.as_str()),
        }
    }
}

} // verus!
