//! The error translator: every failure that crosses the boundary is rendered
//! as one formatted message, `ZboxFS(<code>): <description>`.
//!
//! Engine failures keep their numeric code and description verbatim.  Two
//! synthetic conditions are produced by the boundary layer itself, with the
//! engine's own code and wording for them: an operation against an emptied
//! slot (`Closed` / `RepoClosed`), and an adapter-level semantic rejection
//! (`InvalidArgument`, e.g. an unrecognized seek origin or a buffer range
//! that lies outside the caller's buffer).

use vstd::prelude::*;
use vstd::string::StringExecFns;

use crate::decimal;

verus! {

/// The single caller-visible error of the boundary layer.
#[derive(Debug, Clone, PartialEq, Eq)]
pub enum FsError {
    /// An operation targeted a file or version-reader slot that was already
    /// emptied by `close`.
    Closed,
    /// An operation targeted a repository slot that was already emptied by
    /// `close`.
    RepoClosed,
    /// The adapter rejected an argument before any engine call was made.
    InvalidArgument,
    /// A failure reported by the storage engine: its numeric code and its
    /// textual description, passed through verbatim.
    Engine { code: i32, desc: String },
}

impl FsError {
    /// The numeric code of this error.
    pub open spec fn code_spec(&self) -> int {
        match *self {
            FsError::Closed => -1075,
            FsError::RepoClosed => -1027,
            FsError::InvalidArgument => -1050,
            FsError::Engine { code, .. } => code as int,
        }
    }

    /// The textual description of this error.
    pub open spec fn desc_spec(&self) -> Seq<char> {
        match *self {
            FsError::Closed => "File is closed"@,
            FsError::RepoClosed => "Repo is closed"@,
            FsError::InvalidArgument => "Invalid argument"@,
            FsError::Engine { desc, .. } => desc@,
        }
    }

    /// The full caller-visible message of this error.
    pub open spec fn message_spec(&self) -> Seq<char> {
        "ZboxFS("@ + decimal::int_str(self.code_spec()) + "): "@ + self.desc_spec()
    }

    /// The numeric code of this error.
    pub fn code(&self) -> (c: i32)
        ensures
            c as int == self.code_spec(),
    {
        match *self {
            FsError::Closed => -1075,
            FsError::RepoClosed => -1027,
            FsError::InvalidArgument => -1050,
            FsError::Engine { code, .. } => code,
        }
    }

    /// The textual description of this error.
    pub fn desc(&self) -> (d: String)
        ensures
            d@ == self.desc_spec(),
    {
        match self {
            FsError::Closed => String::from_str("File is closed"),
            FsError::RepoClosed => String::from_str("Repo is closed"),
            FsError::InvalidArgument => String::from_str("Invalid argument"),
            FsError::Engine { desc, .. } => desc.clone(),
        }
    }

    /// Renders the single formatted message that crosses the boundary.
    pub fn message(&self) -> (m: String)
        ensures
            m@ == self.message_spec(),
    {
        let mut m = String::from_str("ZboxFS(");
        decimal::push_i32(&mut m, self.code());
        m.append("): ");
        let d = self.desc();
        m.append(d.as_str());
        m
    }
}

} // verus!
