//! Error kinds shared by the store and the timeline.

use vstd::prelude::*;

verus! {

/// What went wrong.
#[derive(Debug, Clone, Copy, PartialEq, Eq, Structural)]
pub enum CoreError {
    /// The store could not be opened, read or written, or what it holds is
    /// not what this version wrote.
    Storage,
    /// No repository, operation or other record goes by the given name or
    /// identifier.
    NotFound,
    /// The version control engine failed.
    Engine,
    /// A persisted document could not be parsed.
    Serialization,
}

} // verus!
