//! Status caching and operation history for Git front ends.
//!
//! Two parts: the operation timeline, an undo/redo record of completed
//! operations, and the status cache store, which keeps per-file status rows
//! and a queue of background work per repository.

pub mod bindings;
pub mod cache;
pub mod clock;
pub mod error;
pub mod history;
pub mod ident;
pub mod oplog;
pub mod repository;
pub mod seqs;
pub mod stash;
pub mod status;
pub mod store;
pub mod temp_ignore;
pub mod text;

pub use cache::StatusCache;
pub use history::{Branch, Commit, DiffStats, FileChange};
pub use oplog::{Operation, OperationLog, OperationType};
pub use repository::{RemoteStatus, RepoState};
pub use stash::FileStatus as StashFileStatus;
pub use stash::{BranchContext, CommitInfo, StashedFile, VisualStash, VisualStashManager};
pub use status::FileStatus as StatusFileStatus;
pub use status::FileStatusEntry;
pub use temp_ignore::{IncludeCondition, TempIgnoreManager, TempIgnoreSettings, TemporaryIgnore};
use vstd::prelude::*;

verus! {

/// Library version.
pub const VERSION: &'static str = "0.1.0";

} // verus!
