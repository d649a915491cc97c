//! Structured warning events: recoverable faults that the pipeline reports
//! while processing continues. Rendering them is the caller's concern.

use vstd::prelude::*;

verus! {

/// A recoverable fault met during enumeration or filtering.
#[derive(Debug, PartialEq, Eq)]
pub enum Warning {
    /// A root directory given to the search does not exist.
    MissingRoot { path: String },
    /// A directory entry whose name could not be decoded or whose size
    /// could not be read.
    UnreadableEntry { path: String },
    /// A name pattern that regex syntax rejects; `message` renders the
    /// compiler's complaint.
    InvalidPattern { pattern: String, message: String },
}

impl Warning {
    /// The pattern text of an invalid-pattern warning; empty for the other
    /// variants.
    pub open spec fn invalid_pattern_source(&self) -> Seq<char> {
        match self {
            Warning::InvalidPattern { pattern, .. } => pattern@,
            _ => Seq::<char>::empty(),
        }
    }
}

} // verus!
