//! Operation timeline: a linear undo/redo record of completed Git operations.
//!
//! The timeline only records. Undo and redo move a cursor over the recorded
//! operations; nothing is executed or reversed here. A caller that wants to
//! reverse an operation derives the inverse from its two snapshots.

use crate::clock::unix_seconds;
use crate::error::CoreError;
use crate::ident::random_uuid;
use std::path::PathBuf;
use vstd::prelude::*;

verus! {

/// `std::path::PathBuf`, the path of a repository. A timeline carries the
/// path along and never looks at it.
#[verifier::external_type_specification]
#[verifier::external_body]
pub struct ExPathBuf(PathBuf);

/// How far a reset reaches.
#[derive(Debug, Clone)]
pub enum ResetMode {
    Soft,
    Mixed,
    Hard,
}

/// Kind of a Git operation, with the facts particular to that kind.
#[allow(inconsistent_fields)]
#[derive(Debug, Clone)]
pub enum OperationType {
    Commit { message: String, hash: String },
    Stage { files: Vec<String> },
    Unstage { files: Vec<String> },
    Discard { files: Vec<String> },
    CreateBranch { name: String },
    SwitchBranch { from: String, to: String },
    Merge { branch: String },
    Pull { remote: String, branch: String },
    Push { remote: String, branch: String },
    Stash { message: Option<String> },
    StashPop { index: usize },
    Rebase { onto: String },
    CherryPick { commit: String },
    Revert { commit: String },
    Reset { mode: ResetMode, target: String },
    AmendCommit { message: String },
}

impl OperationType {
    /// The name under which operations of this kind are searched for. Only
    /// four kinds can be searched for by name.
    pub open spec fn search_tag(self) -> Option<Seq<char>> {
        match self {
            OperationType::Commit { .. } => Some("commit"@),
            OperationType::Stage { .. } => Some("stage"@),
            OperationType::Push { .. } => Some("push"@),
            OperationType::Pull { .. } => Some("pull"@),
            _ => None,
        }
    }
}

/// Point-in-time facts about a repository.
#[derive(Debug, Clone)]
pub struct RepositorySnapshot {
    pub head: String,
    pub branch: String,
    pub staged_files: Vec<String>,
    pub modified_files: Vec<String>,
    pub untracked_files: Vec<String>,
    pub stashes: Vec<String>,
}

/// One recorded operation.
#[derive(Debug, Clone)]
pub struct Operation {
    pub id: String,
    pub timestamp: u64,
    pub operation_type: OperationType,
    pub snapshot_before: RepositorySnapshot,
    pub snapshot_after: Option<RepositorySnapshot>,
    pub success: bool,
    pub error_message: Option<String>,
}

impl Operation {
    /// An operation that has started: only the snapshot taken before it is set.
    pub open spec fn started(
        id: String,
        timestamp: u64,
        operation_type: OperationType,
        snapshot_before: RepositorySnapshot,
    ) -> Operation {
        Operation {
            id,
            timestamp,
            operation_type,
            snapshot_before,
            snapshot_after: None,
            success: true,
            error_message: None,
        }
    }

    /// The operation with its outcome filled in. An operation whose second
    /// snapshot is set already is complete and stays as it is.
    pub open spec fn completed(
        self,
        snapshot_after: RepositorySnapshot,
        success: bool,
        error: Option<String>,
    ) -> Operation {
        if self.snapshot_after is Some {
            self
        } else {
            Operation {
                snapshot_after: Some(snapshot_after),
                success,
                error_message: error,
                ..self
            }
        }
    }

    /// Starts an operation under the given identifier and timestamp.
    pub fn with_identity(
        id: String,
        timestamp: u64,
        operation_type: OperationType,
        snapshot_before: RepositorySnapshot,
    ) -> (op: Operation)
        ensures
            op == Operation::started(id, timestamp, operation_type, snapshot_before),
    {
        Operation {
            id,
            timestamp,
            operation_type,
            snapshot_before,
            snapshot_after: None,
            success: true,
            error_message: None,
        }
    }

    /// Starts an operation now, under a fresh random identifier.
    pub fn new(operation_type: OperationType, snapshot_before: RepositorySnapshot) -> (op:
        Operation)
        ensures
            op == Operation::started(op.id, op.timestamp, operation_type, snapshot_before),
            op.id@.len() == 36,
    {
        let timestamp = unix_seconds();
        let id = random_uuid();
        Operation::with_identity(id, timestamp, operation_type, snapshot_before)
    }

    /// Records the outcome of the operation.
    pub fn with_result(
        self,
        snapshot_after: RepositorySnapshot,
        success: bool,
        error: Option<String>,
    ) -> (op: Operation)
        ensures
            op == self.completed(snapshot_after, success, error),
    {
        if self.snapshot_after.is_some() {
            self
        } else {
            let mut op = self;
            op.snapshot_after = Some(snapshot_after);
            op.success = success;
            op.error_message = error;
            op
        }
    }
}

/// The timeline as a value: the recorded operations, oldest first, the cursor
/// and the bound on the number of entries.
pub struct TimelineView {
    pub entries: Seq<Operation>,
    pub cursor: Option<int>,
    pub limit: nat,
}

impl TimelineView {
    /// The cursor is absent exactly when there are no entries, and otherwise
    /// points at one of them.
    pub open spec fn positioned(self) -> bool {
        match self.cursor {
            Some(i) => 0 <= i < self.entries.len(),
            None => self.entries.len() == 0,
        }
    }

    /// A positioned timeline that respects its bound.
    pub open spec fn wf(self) -> bool {
        &&& self.positioned()
        &&& self.entries.len() <= self.limit
    }

    /// The timeline without entries.
    pub open spec fn empty(limit: nat) -> Self {
        TimelineView { entries: Seq::empty(), cursor: None, limit }
    }

    /// The timeline over the given entries with the cursor at the last one.
    pub open spec fn at_end(entries: Seq<Operation>, limit: nat) -> Self {
        TimelineView {
            entries,
            cursor: if entries.len() > 0 {
                Some(entries.len() - 1)
            } else {
                None
            },
            limit,
        }
    }

    /// The operation under the cursor.
    pub open spec fn current(self) -> Option<Operation> {
        match self.cursor {
            Some(i) => Some(self.entries[i]),
            None => None,
        }
    }

    /// Whether there is an earlier entry to step back to.
    pub open spec fn can_undo(self) -> bool {
        self.cursor matches Some(i) && i > 0
    }

    /// Whether there is a later entry to step forward to. A timeline with
    /// entries and no cursor can step onto its first entry.
    pub open spec fn can_redo(self) -> bool {
        match self.cursor {
            Some(i) => i < self.entries.len() - 1,
            None => self.entries.len() > 0,
        }
    }

    /// One step back, where there is an earlier entry.
    pub open spec fn undo(self) -> Self {
        match self.cursor {
            Some(i) if i > 0 => TimelineView { cursor: Some(i - 1), ..self },
            _ => self,
        }
    }

    /// One step forward, where there is a later entry. A timeline with
    /// entries and no cursor steps onto its first entry.
    pub open spec fn redo(self) -> Self {
        if self.can_redo() {
            match self.cursor {
                Some(i) => TimelineView { cursor: Some(i + 1), ..self },
                None => TimelineView { cursor: Some(0), ..self },
            }
        } else {
            self
        }
    }

    /// Number of entries beyond the bound.
    pub open spec fn excess(self) -> int {
        if self.entries.len() > self.limit {
            self.entries.len() - self.limit
        } else {
            0
        }
    }

    /// Drops the oldest entries beyond the bound. The cursor moves down with
    /// its entry; a cursor whose entry is dropped rests on the oldest entry
    /// that is left, and is absent when none is left.
    pub open spec fn evict(self) -> Self {
        let excess = self.excess();
        let entries = self.entries.skip(excess);
        TimelineView {
            entries,
            cursor: match self.cursor {
                Some(i) if entries.len() > 0 => Some(
                    if i >= excess {
                        i - excess
                    } else {
                        0
                    },
                ),
                _ => None,
            },
            limit: self.limit,
        }
    }

    /// The entries up to and including the cursor: what a push keeps.
    pub open spec fn kept(self) -> Seq<Operation> {
        match self.cursor {
            Some(i) => self.entries.take(i + 1),
            None => self.entries,
        }
    }

    /// Records `op` after the cursor: the entries after the cursor are
    /// discarded, `op` is appended and becomes current, and the bound is
    /// enforced.
    pub open spec fn push(self, op: Operation) -> Self {
        TimelineView::at_end(self.kept().push(op), self.limit).evict()
    }

    /// Pushes the operations of `ops` one after the other.
    pub open spec fn push_all(self, ops: Seq<Operation>) -> Self
        decreases ops.len(),
    {
        if ops.len() == 0 {
            self
        } else {
            self.push_all(ops.drop_last()).push(ops.last())
        }
    }

    /// The timeline with another bound, enforced at once.
    pub open spec fn with_limit(self, limit: nat) -> Self {
        TimelineView { limit, ..self }.evict()
    }

    /// The `count` most recent entries, most recent first.
    pub open spec fn recent(self, count: nat) -> Seq<Operation> {
        Seq::new(
            if count < self.entries.len() {
                count
            } else {
                self.entries.len()
            },
            |k: int| self.entries[self.entries.len() - 1 - k],
        )
    }
}

/// Selects the operations that are searched for under `tag`.
pub open spec fn has_tag(tag: Seq<char>) -> spec_fn(Operation) -> bool {
    |op: Operation| op.operation_type.search_tag() == Some(tag)
}

/// Selects the operations whose timestamp lies in `start..=end`.
pub open spec fn in_range(start: u64, end: u64) -> spec_fn(Operation) -> bool {
    |op: Operation| start <= op.timestamp <= end
}

/// The operations that a sequence of references points at.
pub open spec fn referents(refs: Seq<&Operation>) -> Seq<Operation> {
    refs.map_values(|r: &Operation| *r)
}

/// Undo/redo timeline with a bound on the number of entries.
#[derive(Debug)]
pub struct OperationLog {
    operations: Vec<Operation>,
    current_index: Option<usize>,
    repo_path: PathBuf,
    max_operations: usize,
}

impl View for OperationLog {
    type V = TimelineView;

    closed spec fn view(&self) -> TimelineView {
        TimelineView {
            entries: self.operations@,
            cursor: match self.current_index {
                Some(i) => Some(i as int),
                None => None,
            },
            limit: self.max_operations as nat,
        }
    }
}

impl OperationLog {
    /// Number of entries that a new timeline keeps.
    pub const DEFAULT_MAX_OPERATIONS: usize = 1000;

    /// The invariant of the timeline, which every method keeps.
    pub open spec fn wf(&self) -> bool {
        self@.wf()
    }

    /// An empty timeline for the repository at `repo_path`.
    pub fn new(repo_path: PathBuf) -> (log: Self)
        ensures
            log.wf(),
            log@ == TimelineView::empty(1000),
    {
        OperationLog {
            operations: Vec::new(),
            current_index: None,
            repo_path,
            max_operations: 1000,
        }
    }

    /// A timeline over operations that were recorded earlier, oldest first.
    /// All of them count as done: the cursor is at the last one.
    pub fn from_operations(repo_path: PathBuf, operations: Vec<Operation>) -> (log: Self)
        ensures
            log.wf(),
            log@ == TimelineView::at_end(operations@, 1000).evict(),
    {
        let current_index = if operations.len() > 0 {
            Some(operations.len() - 1)
        } else {
            None
        };
        let mut log = OperationLog { operations, current_index, repo_path, max_operations: 1000 };
        log.evict_oldest();
        log
    }

    /// A timeline over what loading a persisted timeline gave. The timeline
    /// is a convenience, not a record that anything depends on: where the
    /// document could not be read, the timeline starts empty and the error
    /// comes back as a warning.
    pub fn restore(repo_path: PathBuf, loaded: Result<Vec<Operation>, CoreError>) -> (r: (
        OperationLog,
        Option<CoreError>,
    ))
        ensures
            r.0.wf(),
            match loaded {
                Ok(operations) => r.0@ == TimelineView::at_end(operations@, 1000).evict() && r.1
                    is None,
                Err(e) => r.0@ == TimelineView::empty(1000) && r.1 == Some(e),
            },
    {
        match loaded {
            Ok(operations) => (OperationLog::from_operations(repo_path, operations), None),
            Err(e) => (OperationLog::new(repo_path), Some(e)),
        }
    }

    /// The bound on the number of entries.
    pub fn max_operations(&self) -> (max: usize)
        ensures
            max == self@.limit,
    {
        self.max_operations
    }

    /// Changes the bound and enforces it at once.
    pub fn set_max_operations(&mut self, max_operations: usize)
        requires
            old(self).wf(),
        ensures
            final(self).wf(),
            final(self)@ == old(self)@.with_limit(max_operations as nat),
    {
        self.max_operations = max_operations;
        self.evict_oldest();
    }

    fn evict_oldest(&mut self)
        requires
            old(self)@.positioned(),
        ensures
            final(self).wf(),
            final(self)@ == old(self)@.evict(),
    {
        let len = self.operations.len();
        if len > self.max_operations {
            let removed = len - self.max_operations;
            let rest = self.operations.split_off(removed);
            self.operations = rest;
            self.current_index = match self.current_index {
                Some(i) => {
                    if self.operations.len() == 0 {
                        None
                    } else if i >= removed {
                        Some(i - removed)
                    } else {
                        Some(0)
                    }
                },
                None => None,
            };
        } else {
            assert(self@.entries =~= old(self)@.entries.skip(0));
        }
    }

    /// Records an operation after the current one. Operations that had been
    /// undone are discarded, and the oldest entries give way once the bound
    /// is passed.
    pub fn push(&mut self, operation: Operation)
        requires
            old(self).wf(),
        ensures
            final(self).wf(),
            final(self)@ == old(self)@.push(operation),
    {
        if let Some(index) = self.current_index {
            self.operations.truncate(index + 1);
        }
        self.operations.push(operation);
        self.current_index = Some(self.operations.len() - 1);
        self.evict_oldest();
    }

    /// The operation under the cursor.
    pub fn current(&self) -> (r: Option<&Operation>)
        requires
            self.wf(),
        ensures
            match r {
                Some(op) => self@.current() == Some(*op),
                None => self@.current() is None,
            },
    {
        match self.current_index {
            Some(i) => Some(&self.operations[i]),
            None => None,
        }
    }

    /// Whether there is an earlier entry to step back to.
    pub fn can_undo(&self) -> (b: bool)
        ensures
            b == self@.can_undo(),
    {
        match self.current_index {
            Some(i) => i > 0,
            None => false,
        }
    }

    /// Whether there is a later entry to step forward to.
    pub fn can_redo(&self) -> (b: bool)
        requires
            self.wf(),
        ensures
            b == self@.can_redo(),
    {
        match self.current_index {
            Some(i) => i < self.operations.len() - 1,
            None => !self.operations.is_empty(),
        }
    }

    /// Steps back to the previous operation and returns it. Without an
    /// earlier entry nothing changes and nothing is returned.
    pub fn undo(&mut self) -> (r: Option<&Operation>)
        requires
            old(self).wf(),
        ensures
            final(self).wf(),
            final(self)@ == old(self)@.undo(),
            match r {
                Some(op) => old(self)@.can_undo() && final(self)@.current() == Some(*op),
                None => !old(self)@.can_undo(),
            },
    {
        match self.current_index {
            Some(i) => {
                if i > 0 {
                    self.current_index = Some(i - 1);
                    Some(&self.operations[i - 1])
                } else {
                    None
                }
            },
            None => None,
        }
    }

    /// Steps forward to the next operation and returns it. Without a later
    /// entry nothing changes and nothing is returned.
    pub fn redo(&mut self) -> (r: Option<&Operation>)
        requires
            old(self).wf(),
        ensures
            final(self).wf(),
            final(self)@ == old(self)@.redo(),
            match r {
                Some(op) => old(self)@.can_redo() && final(self)@.current() == Some(*op),
                None => !old(self)@.can_redo(),
            },
    {
        match self.current_index {
            Some(i) => {
                if i < self.operations.len() - 1 {
                    self.current_index = Some(i + 1);
                    Some(&self.operations[i + 1])
                } else {
                    None
                }
            },
            None => None,
        }
    }

    /// All recorded operations, oldest first.
    pub fn all_operations(&self) -> (r: &[Operation])
        ensures
            r@ == self@.entries,
    {
        self.operations.as_slice()
    }

    /// The `count` most recent operations, most recent first.
    pub fn recent_operations(&self, count: usize) -> (r: Vec<&Operation>)
        ensures
            referents(r@) == self@.recent(count as nat),
    {
        let len = self.operations.len();
        let mut out: Vec<&Operation> = Vec::new();
        let mut i: usize = len;
        while i > 0 && out.len() < count
            invariant
                len == self.operations.len(),
                i <= len,
                out.len() == len - i,
                out.len() <= count,
                forall|k: int| 0 <= k < out.len() ==> *out[k] == self.operations[len - 1 - k],
            decreases i,
        {
            i = i - 1;
            out.push(&self.operations[i]);
        }
        out
    }

    /// The operations searched for under `operation_type`, oldest first. The
    /// names are `commit`, `stage`, `push` and `pull`; under any other name
    /// nothing is found.
    pub fn find_by_type(&self, operation_type: &str) -> (r: Vec<&Operation>)
        ensures
            referents(r@) == self@.entries.filter(has_tag(operation_type@)),
    {
        let wanted = operation_type.to_owned();
        let commits = wanted == "commit".to_owned();
        let stages = wanted == "stage".to_owned();
        let pushes = wanted == "push".to_owned();
        let pulls = wanted == "pull".to_owned();
        let ghost pred = has_tag(operation_type@);
        let mut out: Vec<&Operation> = Vec::new();
        let mut i: usize = 0;
        while i < self.operations.len()
            invariant
                i <= self.operations.len(),
                pred == has_tag(operation_type@),
                commits == (operation_type@ == "commit"@),
                stages == (operation_type@ == "stage"@),
                pushes == (operation_type@ == "push"@),
                pulls == (operation_type@ == "pull"@),
                referents(out@) == self.operations@.take(i as int).filter(pred),
            decreases self.operations.len() - i,
        {
            let op = &self.operations[i];
            let selected = match &op.operation_type {
                OperationType::Commit { .. } => commits,
                OperationType::Stage { .. } => stages,
                OperationType::Push { .. } => pushes,
                OperationType::Pull { .. } => pulls,
                _ => false,
            };
            proof {
                self.operations@.lemma_take_succ_push(i as int);
                self.operations@.take(i as int).lemma_filter_push(*op, pred);
            }
            if selected {
                out.push(op);
            }
            i = i + 1;
        }
        assert(self.operations@.take(i as int) =~= self.operations@);
        out
    }

    /// The operations whose timestamp lies in `start..=end`, oldest first.
    pub fn operations_in_range(&self, start: u64, end: u64) -> (r: Vec<&Operation>)
        ensures
            referents(r@) == self@.entries.filter(in_range(start, end)),
    {
        let ghost pred = in_range(start, end);
        let mut out: Vec<&Operation> = Vec::new();
        let mut i: usize = 0;
        while i < self.operations.len()
            invariant
                i <= self.operations.len(),
                pred == in_range(start, end),
                referents(out@) == self.operations@.take(i as int).filter(pred),
            decreases self.operations.len() - i,
        {
            let op = &self.operations[i];
            let selected = op.timestamp >= start && op.timestamp <= end;
            proof {
                self.operations@.lemma_take_succ_push(i as int);
                self.operations@.take(i as int).lemma_filter_push(*op, pred);
            }
            if selected {
                out.push(op);
            }
            i = i + 1;
        }
        assert(self.operations@.take(i as int) =~= self.operations@);
        out
    }

    /// Forgets every recorded operation.
    pub fn clear(&mut self)
        ensures
            final(self).wf(),
            final(self)@ == TimelineView::empty(old(self)@.limit),
    {
        self.operations.clear();
        self.current_index = None;
    }
}

/// Whatever is done to a timeline, its cursor never points astray: it is
/// absent exactly when there are no entries, points at an entry otherwise,
/// and the entries stay within the bound.
pub proof fn law_cursor_stays_valid(t: TimelineView, op: Operation, limit: nat)
    requires
        t.wf(),
    ensures
        t.push(op).wf(),
        t.undo().wf(),
        t.redo().wf(),
        t.with_limit(limit).wf(),
{
}

/// Undo followed by redo returns to where it started: from any position but
/// the first, the timeline, and with it the current operation, is unchanged.
pub proof fn law_undo_then_redo(t: TimelineView)
    requires
        t.wf(),
        t.can_undo(),
    ensures
        t.undo().redo() == t,
        t.undo().redo().current() == t.current(),
{
}

/// Pushing at least as many operations as the bound admits leaves the last
/// of them, as many as the bound, in the order in which they were pushed.
proof fn lemma_push_all_tail(t: TimelineView, ops: Seq<Operation>)
    requires
        t.wf(),
        ops.len() >= t.limit,
        ops.len() > 0,
    ensures
        t.push_all(ops).wf(),
        t.push_all(ops).limit == t.limit,
        t.push_all(ops).kept() == t.push_all(ops).entries,
        t.push_all(ops).entries == ops.skip(ops.len() - t.limit),
    decreases ops.len(),
{
    let init = ops.drop_last();
    if init.len() >= t.limit && init.len() > 0 {
        lemma_push_all_tail(t, init);
    } else if init.len() > 0 {
        // Exactly one operation short of the bound so far: nothing has been
        // evicted yet, and the kept entries of `t` are still in front.
        lemma_push_all_prefix(t, init);
    }
}

/// Pushing fewer operations than the bound admits keeps them all, behind as
/// many of the kept entries as still fit.
proof fn lemma_push_all_prefix(t: TimelineView, ops: Seq<Operation>)
    requires
        t.wf(),
        ops.len() < t.limit,
        ops.len() > 0,
    ensures
        t.push_all(ops).wf(),
        t.push_all(ops).limit == t.limit,
        t.push_all(ops).kept() == t.push_all(ops).entries,
        t.push_all(ops).entries.len() >= ops.len(),
        t.push_all(ops).entries.skip(t.push_all(ops).entries.len() - ops.len()) == ops,
    decreases ops.len(),
{
    let init = ops.drop_last();
    if init.len() > 0 {
        lemma_push_all_prefix(t, init);
        let before = t.push_all(init);
        let k = before.entries.len() - init.len();
        assert forall|j: int| 0 <= j < init.len() implies before.entries[k + j] == ops[j] by {
            assert(before.entries.skip(k)[j] == init[j]);
        }
    }
}

/// Pushing more operations than the bound admits leaves exactly as many
/// entries as the bound: the most recent ones, in the order in which they
/// were pushed. Whatever the timeline held before is gone.
pub proof fn law_push_beyond_limit(t: TimelineView, ops: Seq<Operation>)
    requires
        t.wf(),
        ops.len() > t.limit,
    ensures
        t.push_all(ops).wf(),
        t.push_all(ops).entries.len() == t.limit,
        t.push_all(ops).entries == ops.skip(ops.len() - t.limit),
        t.limit > 0 ==> t.push_all(ops).current() == Some(ops.last()),
{
    lemma_push_all_tail(t, ops);
}

} // verus!
