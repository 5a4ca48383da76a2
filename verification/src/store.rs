//! The status cache store as a value: four tables and two identifier
//! counters, with the operations of the store as functions on that value.
//!
//! Timestamps are readings of a clock in milliseconds, and so is a
//! time-to-live. The greatest age of a finished operation is given in
//! seconds.

use crate::seqs::every;
use crate::seqs::lemma_filter_agree;
use crate::seqs::lemma_filter_all_out;
use crate::seqs::lemma_filter_filter;
use crate::seqs::lemma_filter_none_out;
use crate::seqs::lemma_filter_pairwise;
use crate::seqs::pairwise;
use crate::status::EntryView;
use crate::status::FileStatus;
use vstd::prelude::*;

verus! {

/// State of a queued operation.
#[derive(Debug, Clone, Copy, PartialEq, Eq, Structural)]
pub enum OperationStatus {
    Pending,
    Running,
    Complete,
    Failed,
}

impl OperationStatus {
    /// The integer under which the state is persisted.
    pub open spec fn spec_code(self) -> int {
        match self {
            OperationStatus::Pending => 0,
            OperationStatus::Running => 1,
            OperationStatus::Complete => 2,
            OperationStatus::Failed => 3,
        }
    }

    /// The state that an integer stands for, if it stands for one.
    pub open spec fn decode(code: int) -> Option<OperationStatus> {
        if code == 0 {
            Some(OperationStatus::Pending)
        } else if code == 1 {
            Some(OperationStatus::Running)
        } else if code == 2 {
            Some(OperationStatus::Complete)
        } else if code == 3 {
            Some(OperationStatus::Failed)
        } else {
            None
        }
    }

    /// Whether the work is over, whichever way it ended.
    pub open spec fn is_finished(self) -> bool {
        self == OperationStatus::Complete || self == OperationStatus::Failed
    }

    /// The integer code of the state.
    pub fn code(self) -> (code: i32)
        ensures
            code == self.spec_code(),
    {
        match self {
            OperationStatus::Pending => 0,
            OperationStatus::Running => 1,
            OperationStatus::Complete => 2,
            OperationStatus::Failed => 3,
        }
    }

    /// Decodes an integer code. Any integer outside `0..=3` is refused.
    pub fn from_code(code: i32) -> (status: Option<OperationStatus>)
        ensures
            status == OperationStatus::decode(code as int),
            status is Some <==> 0 <= code <= 3,
    {
        match code {
            0 => Some(OperationStatus::Pending),
            1 => Some(OperationStatus::Running),
            2 => Some(OperationStatus::Complete),
            3 => Some(OperationStatus::Failed),
            _ => None,
        }
    }
}

/// A registered repository.
pub struct RepositoryView {
    pub id: int,
    pub path: Seq<char>,
    pub last_accessed: int,
    pub is_valid: bool,
}

/// The cached status of one file of one repository.
pub struct FileRowView {
    pub repo_id: int,
    pub path: Seq<char>,
    pub work_tree_status: FileStatus,
    pub index_status: FileStatus,
    pub cache_time: int,
    pub file_mtime: int,
}

/// What is cached of a repository as a whole.
pub struct RollupView {
    pub repo_id: int,
    pub current_branch: Option<Seq<char>>,
    pub upstream_branch: Option<Seq<char>>,
    pub ahead_count: int,
    pub behind_count: int,
    pub merge_head: Option<Seq<char>>,
    pub rebase_head: Option<Seq<char>>,
    pub cache_time: int,
}

/// An operation that waits for, or has been taken up by, a worker.
pub struct QueuedView {
    pub id: int,
    pub repo_id: int,
    pub operation_type: Seq<char>,
    pub operation_data: Seq<char>,
    pub status: OperationStatus,
    pub created_at: int,
    pub started_at: Option<int>,
    pub completed_at: Option<int>,
    pub error_message: Option<Seq<char>>,
}

/// The whole store.
pub struct StoreView {
    pub repos: Seq<RepositoryView>,
    pub files: Seq<FileRowView>,
    pub rollups: Seq<RollupView>,
    pub queue: Seq<QueuedView>,
    /// The highest repository identifier handed out so far.
    pub last_repo_id: int,
    /// The highest operation identifier handed out so far.
    pub last_operation_id: int,
}

/// The highest identifier that either counter can hand out.
pub open spec fn max_id() -> int {
    0x7fff_ffff_ffff_ffff
}

/// A repository seen at `now`, where it is the one at `path`.
pub open spec fn touched(r: RepositoryView, path: Seq<char>, now: int) -> RepositoryView {
    if r.path == path {
        RepositoryView { last_accessed: now, ..r }
    } else {
        r
    }
}

/// A queued operation after a worker reported `status` at `now`. Running
/// stamps the start; Complete and Failed stamp the end and set the error
/// text, or clear it; Pending changes nothing.
pub open spec fn transitioned(
    q: QueuedView,
    status: OperationStatus,
    error: Option<Seq<char>>,
    now: int,
) -> QueuedView {
    match status {
        OperationStatus::Pending => q,
        OperationStatus::Running => QueuedView { status, started_at: Some(now), ..q },
        OperationStatus::Complete | OperationStatus::Failed => QueuedView {
            status,
            completed_at: Some(now),
            error_message: error,
            ..q
        },
    }
}

/// A queued operation after the report for operation `id`.
pub open spec fn marked(
    q: QueuedView,
    id: int,
    status: OperationStatus,
    error: Option<Seq<char>>,
    now: int,
) -> QueuedView {
    if q.id == id {
        transitioned(q, status, error, now)
    } else {
        q
    }
}

/// Whether a sweep at `now` removes the operation: it is finished, and it
/// ended more than `max_age_seconds` seconds before `now`.
pub open spec fn expired(q: QueuedView, max_age_seconds: int, now: int) -> bool {
    &&& q.status.is_finished()
    &&& q.completed_at matches Some(ended)
    &&& ended < now - max_age_seconds * 1000
}

/// Whether a row cached at `cache_time` is fresh at `now`: it lies in the
/// window that starts the time-to-live before `now` and ends just before
/// `now`. A row that is exactly as old as the time-to-live is fresh; a row
/// cached at `now` itself, or after it, is not.
pub open spec fn in_window(cache_time: int, ttl_ms: int, now: int) -> bool {
    now - ttl_ms <= cache_time < now
}

/// What a worker is told of a pending operation.
pub open spec fn claim(q: QueuedView) -> (int, Seq<char>, Seq<char>) {
    (q.id, q.operation_type, q.operation_data)
}

/// The entry that a cached row answers a status query with.
pub open spec fn entry_of(f: FileRowView) -> EntryView {
    EntryView { path: f.path, status: f.work_tree_status }
}

/// The row under which an entry that was scanned at `now` is cached.
pub open spec fn row_of(repo_id: int, e: EntryView, now: int) -> FileRowView {
    FileRowView {
        repo_id,
        path: e.path,
        work_tree_status: e.status,
        index_status: FileStatus::Clean,
        cache_time: now,
        file_mtime: now,
    }
}

/// Selects the file rows of a repository.
pub open spec fn file_of(repo_id: int) -> spec_fn(FileRowView) -> bool {
    |f: FileRowView| f.repo_id == repo_id
}

/// Selects the file rows of all other repositories.
pub open spec fn file_not_of(repo_id: int) -> spec_fn(FileRowView) -> bool {
    |f: FileRowView| f.repo_id != repo_id
}

/// Selects the rollups of all other repositories.
pub open spec fn rollup_not_of(repo_id: int) -> spec_fn(RollupView) -> bool {
    |r: RollupView| r.repo_id != repo_id
}

/// Selects the operations of a repository that wait for a worker.
pub open spec fn pending_of(repo_id: int) -> spec_fn(QueuedView) -> bool {
    |q: QueuedView| q.repo_id == repo_id && q.status == OperationStatus::Pending
}

/// Selects the operations that a sweep leaves.
pub open spec fn survives(max_age_seconds: int, now: int) -> spec_fn(QueuedView) -> bool {
    |q: QueuedView| !expired(q, max_age_seconds, now)
}

/// Selects the entries for another path.
pub open spec fn other_path(path: Seq<char>) -> spec_fn(EntryView) -> bool {
    |e: EntryView| e.path != path
}

/// One entry per path: of the entries for one path the last one counts, and
/// the entries stand in the order of those last occurrences.
pub open spec fn distinct_last(entries: Seq<EntryView>) -> Seq<EntryView>
    decreases entries.len(),
{
    if entries.len() == 0 {
        Seq::empty()
    } else {
        distinct_last(entries.drop_last()).filter(other_path(entries.last().path)).push(
            entries.last(),
        )
    }
}

/// The identifier of a repository lies in `1..=last`.
pub open spec fn repo_id_within(last: int) -> spec_fn(RepositoryView) -> bool {
    |r: RepositoryView| 1 <= r.id <= last
}

/// The identifier of an operation lies in `1..=last`.
pub open spec fn operation_id_within(last: int) -> spec_fn(QueuedView) -> bool {
    |q: QueuedView| 1 <= q.id <= last
}

/// The later repository has the higher identifier and another path.
pub open spec fn repos_in_order() -> spec_fn(RepositoryView, RepositoryView) -> bool {
    |a: RepositoryView, b: RepositoryView| a.id < b.id && a.path != b.path
}

/// Two file rows are for different files or different repositories.
pub open spec fn files_differ() -> spec_fn(FileRowView, FileRowView) -> bool {
    |a: FileRowView, b: FileRowView| !(a.repo_id == b.repo_id && a.path == b.path)
}

/// Two rollups are for different repositories.
pub open spec fn rollups_differ() -> spec_fn(RollupView, RollupView) -> bool {
    |a: RollupView, b: RollupView| a.repo_id != b.repo_id
}

/// The later operation has the higher identifier.
pub open spec fn operations_in_order() -> spec_fn(QueuedView, QueuedView) -> bool {
    |a: QueuedView, b: QueuedView| a.id < b.id
}

/// Two entries are for different paths.
pub open spec fn paths_differ() -> spec_fn(EntryView, EntryView) -> bool {
    |a: EntryView, b: EntryView| a.path != b.path
}

/// No path occurs twice in what `distinct_last` gives.
pub proof fn lemma_distinct_last_paths(entries: Seq<EntryView>)
    ensures
        pairwise(distinct_last(entries), paths_differ()),
    decreases entries.len(),
{
    if entries.len() > 0 {
        let init = distinct_last(entries.drop_last());
        let keep = other_path(entries.last().path);
        lemma_distinct_last_paths(entries.drop_last());
        lemma_filter_pairwise(init, keep, paths_differ());
    }
}

/// Caching a scan keeps the invariant of the store.
pub proof fn lemma_scanned_rows(store: StoreView, repo_id: int, entries: Seq<EntryView>, now: int)
    requires
        store.wf(),
    ensures
        store.store_scan(repo_id, entries, now).wf(),
{
    if store.has_repo(repo_id) {
        lemma_filter_pairwise(store.files, file_not_of(repo_id), files_differ());
        lemma_distinct_last_paths(entries);
    }
}

impl StoreView {
    /// The store that holds nothing.
    pub open spec fn empty() -> StoreView {
        StoreView {
            repos: Seq::empty(),
            files: Seq::empty(),
            rollups: Seq::empty(),
            queue: Seq::empty(),
            last_repo_id: 0,
            last_operation_id: 0,
        }
    }

    /// The invariant of the store. Repositories and operations stand in the
    /// order in which they were created, under identifiers that grow; no path
    /// is registered twice; a file is cached once per repository, and a
    /// repository has at most one rollup.
    pub open spec fn wf(self) -> bool {
        &&& 0 <= self.last_repo_id <= max_id()
        &&& 0 <= self.last_operation_id <= max_id()
        &&& every(self.repos, repo_id_within(self.last_repo_id))
        &&& pairwise(self.repos, repos_in_order())
        &&& pairwise(self.files, files_differ())
        &&& pairwise(self.rollups, rollups_differ())
        &&& every(self.queue, operation_id_within(self.last_operation_id))
        &&& pairwise(self.queue, operations_in_order())
    }

    /// Whether a repository is registered under `path`.
    pub open spec fn registered(self, path: Seq<char>) -> bool {
        exists|i: int| 0 <= i < self.repos.len() && (#[trigger] self.repos[i]).path == path
    }

    /// Whether a repository is registered under the identifier `id`.
    pub open spec fn has_repo(self, id: int) -> bool {
        exists|i: int| 0 <= i < self.repos.len() && (#[trigger] self.repos[i]).id == id
    }

    /// Whether an operation is queued under the identifier `id`.
    pub open spec fn has_operation(self, id: int) -> bool {
        exists|i: int| 0 <= i < self.queue.len() && (#[trigger] self.queue[i]).id == id
    }

    /// The identifier of the repository registered under `path`.
    pub open spec fn id_of(self, path: Seq<char>) -> int {
        let i = choose|i: int| 0 <= i < self.repos.len() && (#[trigger] self.repos[i]).path == path;
        self.repos[i].id
    }

    /// Whether a lookup of `path` succeeds: the path is registered, or an
    /// identifier is left to register it under.
    pub open spec fn can_resolve(self, path: Seq<char>) -> bool {
        self.registered(path) || self.last_repo_id < max_id()
    }

    /// The identifier that a lookup of `path` gives: that of the registered
    /// repository, or the next free one.
    pub open spec fn resolved_id(self, path: Seq<char>) -> int {
        if self.registered(path) {
            self.id_of(path)
        } else {
            self.last_repo_id + 1
        }
    }

    /// The store after a lookup of `path` at `now`. A registered repository
    /// is marked as seen at `now`; an unknown path is registered, valid and
    /// seen at `now`. Without a free identifier nothing changes.
    pub open spec fn resolve(self, path: Seq<char>, now: int) -> StoreView {
        if self.registered(path) {
            StoreView { repos: self.repos.map_values(|r: RepositoryView| touched(r, path, now)), ..self }
        } else if self.last_repo_id < max_id() {
            StoreView {
                repos: self.repos.push(
                    RepositoryView {
                        id: self.last_repo_id + 1,
                        path,
                        last_accessed: now,
                        is_valid: true,
                    },
                ),
                last_repo_id: self.last_repo_id + 1,
                ..self
            }
        } else {
            self
        }
    }

    /// Whether an operation can be queued for `path`: the lookup succeeds and
    /// an operation identifier is left.
    pub open spec fn can_enqueue(self, path: Seq<char>) -> bool {
        self.can_resolve(path) && self.last_operation_id < max_id()
    }

    /// The store after an operation was queued for `path` at `now`: the path
    /// is looked up, and the operation joins the end of the queue as Pending
    /// under the next free identifier.
    pub open spec fn enqueue(
        self,
        path: Seq<char>,
        operation_type: Seq<char>,
        operation_data: Seq<char>,
        now: int,
    ) -> StoreView {
        if self.can_enqueue(path) {
            let looked_up = self.resolve(path, now);
            StoreView {
                queue: looked_up.queue.push(
                    QueuedView {
                        id: self.last_operation_id + 1,
                        repo_id: self.resolved_id(path),
                        operation_type,
                        operation_data,
                        status: OperationStatus::Pending,
                        created_at: now,
                        started_at: None,
                        completed_at: None,
                        error_message: None,
                    },
                ),
                last_operation_id: self.last_operation_id + 1,
                ..looked_up
            }
        } else {
            self
        }
    }

    /// The pending operations of a repository, in the order of their
    /// creation.
    pub open spec fn pending(self, repo_id: int) -> Seq<QueuedView> {
        self.queue.filter(pending_of(repo_id))
    }

    /// What workers are told of the pending operations of a repository.
    pub open spec fn claims(self, repo_id: int) -> Seq<(int, Seq<char>, Seq<char>)> {
        self.pending(repo_id).map_values(|q: QueuedView| claim(q))
    }

    /// The store after a worker reported `status` for operation `id`.
    pub open spec fn mark(
        self,
        id: int,
        status: OperationStatus,
        error: Option<Seq<char>>,
        now: int,
    ) -> StoreView {
        StoreView {
            queue: self.queue.map_values(|q: QueuedView| marked(q, id, status, error, now)),
            ..self
        }
    }

    /// The store after the cache of the repository at `path` was invalidated
    /// at `now`: the path is looked up, and the file rows and the rollup of
    /// that repository are gone. The queue is not touched.
    pub open spec fn invalidate(self, path: Seq<char>, now: int) -> StoreView {
        if self.can_resolve(path) {
            let looked_up = self.resolve(path, now);
            let id = self.resolved_id(path);
            StoreView {
                files: looked_up.files.filter(file_not_of(id)),
                rollups: looked_up.rollups.filter(rollup_not_of(id)),
                ..looked_up
            }
        } else {
            self
        }
    }

    /// The store after a sweep at `now`: the finished operations that ended
    /// more than `max_age_seconds` seconds before `now` are gone.
    pub open spec fn sweep(self, max_age_seconds: int, now: int) -> StoreView {
        StoreView { queue: self.queue.filter(survives(max_age_seconds, now)), ..self }
    }

    /// Number of operations that a sweep at `now` removes.
    pub open spec fn swept(self, max_age_seconds: int, now: int) -> int {
        self.queue.len() - self.queue.filter(survives(max_age_seconds, now)).len()
    }

    /// Whether the cache of a repository is fresh at `now`: one row of the
    /// repository, at least, is fresh. A repository without rows is never
    /// fresh.
    pub open spec fn is_fresh(self, repo_id: int, ttl_ms: int, now: int) -> bool {
        exists|i: int|
            0 <= i < self.files.len() && (#[trigger] self.files[i]).repo_id == repo_id && in_window(
                self.files[i].cache_time,
                ttl_ms,
                now,
            )
    }

    /// The file rows of a repository.
    pub open spec fn rows_of(self, repo_id: int) -> Seq<FileRowView> {
        self.files.filter(file_of(repo_id))
    }

    /// What a status query is answered with from the cache.
    pub open spec fn entries_of(self, repo_id: int) -> Seq<EntryView> {
        self.rows_of(repo_id).map_values(|f: FileRowView| entry_of(f))
    }

    /// The rows under which a scan of a repository at `now` is cached.
    pub open spec fn scanned_rows(repo_id: int, entries: Seq<EntryView>, now: int) -> Seq<
        FileRowView,
    > {
        distinct_last(entries).map_values(|e: EntryView| row_of(repo_id, e, now))
    }

    /// The store after a scan of repository `repo_id` was cached at `now`:
    /// the rows of that repository are replaced as a whole. Without such a
    /// repository nothing changes.
    pub open spec fn store_scan(self, repo_id: int, entries: Seq<EntryView>, now: int) -> StoreView {
        if self.has_repo(repo_id) {
            StoreView {
                files: self.files.filter(file_not_of(repo_id)) + StoreView::scanned_rows(
                    repo_id,
                    entries,
                    now,
                ),
                ..self
            }
        } else {
            self
        }
    }

    /// Whether a status query for `path` at `now` has the repository
    /// scanned.
    pub open spec fn scans(self, path: Seq<char>, ttl_ms: int, now: int) -> bool {
        !self.resolve(path, now).is_fresh(self.resolved_id(path), ttl_ms, now)
    }

    /// A whole status query for `path` at `now`: the store afterwards and the
    /// answer. `scan` is what the engine reports of the repository; it is
    /// used, and cached, only where the query has the repository scanned.
    pub open spec fn get_status(
        self,
        path: Seq<char>,
        ttl_ms: int,
        now: int,
        scan: Seq<EntryView>,
    ) -> (StoreView, Seq<EntryView>) {
        let looked_up = self.resolve(path, now);
        let id = self.resolved_id(path);
        if self.scans(path, ttl_ms, now) {
            (looked_up.store_scan(id, scan, now), distinct_last(scan))
        } else {
            (looked_up, looked_up.entries_of(id))
        }
    }
}

/// A lookup registers the path, under the identifier that it gives, keeps
/// the invariant and leaves the other tables alone.
pub proof fn lemma_resolve(store: StoreView, path: Seq<char>, now: int)
    requires
        store.wf(),
        store.can_resolve(path),
    ensures
        store.resolve(path, now).wf(),
        store.resolve(path, now).registered(path),
        store.resolve(path, now).resolved_id(path) == store.resolved_id(path),
        store.resolve(path, now).has_repo(store.resolved_id(path)),
        store.resolve(path, now).files == store.files,
        store.resolve(path, now).rollups == store.rollups,
        store.resolve(path, now).queue == store.queue,
        store.resolve(path, now).last_operation_id == store.last_operation_id,
{
    let after = store.resolve(path, now);
    if store.registered(path) {
        let i = choose|i: int| 0 <= i < store.repos.len() && (#[trigger] store.repos[i]).path == path;
        assert(after.repos[i].path == path);
    } else {
        let last = after.repos.len() - 1;
        assert(after.repos[last].path == path);
    }
}

/// What is cached of a repository right after a scan of it: the scan, one
/// entry per path.
pub proof fn lemma_entries_after_scan(store: StoreView, repo_id: int, scan: Seq<EntryView>, now: int)
    requires
        store.has_repo(repo_id),
    ensures
        store.store_scan(repo_id, scan, now).entries_of(repo_id) == distinct_last(scan),
        store.store_scan(repo_id, scan, now).rows_of(repo_id) == StoreView::scanned_rows(
            repo_id,
            scan,
            now,
        ),
{
    let others = store.files.filter(file_not_of(repo_id));
    let scanned = StoreView::scanned_rows(repo_id, scan, now);
    lemma_filter_all_out(others, file_of(repo_id));
    lemma_filter_none_out(scanned, file_of(repo_id));
}

/// With a time-to-live of zero nothing is fresh, whatever the store holds:
/// every status query has the repository scanned.
pub proof fn law_zero_ttl_always_scans(store: StoreView, path: Seq<char>, repo_id: int, now: int)
    ensures
        !store.is_fresh(repo_id, 0, now),
        store.scans(path, 0, now),
{
}

/// A scan that names no path twice is cached as it came.
pub proof fn lemma_distinct_last_of_distinct(scan: Seq<EntryView>)
    requires
        pairwise(scan, paths_differ()),
    ensures
        distinct_last(scan) == scan,
    decreases scan.len(),
{
    if scan.len() > 0 {
        let init = scan.drop_last();
        assert forall|i: int, j: int| 0 <= i < j < init.len() implies paths_differ()(
            init[i],
            init[j],
        ) by {
            assert(paths_differ()(scan[i], scan[j]));
        }
        lemma_distinct_last_of_distinct(init);
        assert forall|i: int| 0 <= i < init.len() implies other_path(scan.last().path)(
            #[trigger] init[i],
        ) by {
            assert(paths_differ()(scan[i], scan[scan.len() - 1]));
        }
        lemma_filter_none_out(init, other_path(scan.last().path));
        assert(distinct_last(scan) =~= scan);
    } else {
        assert(distinct_last(scan) =~= scan);
    }
}

/// With a time-to-live of zero a status query always has the repository
/// scanned, whatever the store holds, and answers with what the scan gives,
/// one entry per path: with the scan itself, where it names no path twice.
/// The rows that the repository had are replaced by those of the scan.
pub proof fn law_zero_ttl_returns_the_scan(
    store: StoreView,
    path: Seq<char>,
    now: int,
    scan: Seq<EntryView>,
)
    requires
        store.wf(),
        store.can_resolve(path),
    ensures
        store.scans(path, 0, now),
        store.get_status(path, 0, now, scan).1 == distinct_last(scan),
        pairwise(scan, paths_differ()) ==> store.get_status(path, 0, now, scan).1 == scan,
        store.get_status(path, 0, now, scan).0.entries_of(store.resolved_id(path))
            == distinct_last(scan),
{
    lemma_resolve(store, path, now);
    lemma_entries_after_scan(store.resolve(path, now), store.resolved_id(path), scan, now);
    if pairwise(scan, paths_differ()) {
        lemma_distinct_last_of_distinct(scan);
    }
}

/// A repository without cached rows is never fresh: a clean repository is
/// scanned on every status query.
pub proof fn law_empty_cache_always_scans(store: StoreView, repo_id: int, ttl_ms: int, now: int)
    requires
        store.rows_of(repo_id).len() == 0,
    ensures
        !store.is_fresh(repo_id, ttl_ms, now),
{
    if store.is_fresh(repo_id, ttl_ms, now) {
        let i = choose|i: int|
            0 <= i < store.files.len() && (#[trigger] store.files[i]).repo_id == repo_id
                && in_window(store.files[i].cache_time, ttl_ms, now);
        store.files.lemma_filter_contains(file_of(repo_id), i);
    }
}

/// After a status query that scanned a repository and found something, the
/// cache of that repository is fresh at every later reading of the clock
/// that lies no more than the time-to-live after that of the scan.
pub proof fn law_scan_keeps_cache_fresh(
    store: StoreView,
    path: Seq<char>,
    ttl_ms: int,
    now1: int,
    now2: int,
    scan: Seq<EntryView>,
)
    requires
        store.wf(),
        store.can_resolve(path),
        store.scans(path, ttl_ms, now1),
        scan.len() > 0,
        now1 < now2,
        now2 - now1 <= ttl_ms,
    ensures
        store.get_status(path, ttl_ms, now1, scan).0.is_fresh(
            store.resolved_id(path),
            ttl_ms,
            now2,
        ),
{
    let id = store.resolved_id(path);
    let looked_up = store.resolve(path, now1);
    lemma_resolve(store, path, now1);
    let after = looked_up.store_scan(id, scan, now1);
    let others = looked_up.files.filter(file_not_of(id));
    let at = others.len() as int;
    assert(after.files[at].repo_id == id && in_window(after.files[at].cache_time, ttl_ms, now2));
}

/// Two status queries for one repository with no invalidation in between,
/// the first of which scanned the repository and found something, the second
/// made at a later reading of the clock, no more than the time-to-live after
/// the first: the second is answered from the cache, without a scan, with
/// the rows of the first, and it leaves the cached rows as they are.
pub proof fn law_second_query_within_ttl(
    store: StoreView,
    path: Seq<char>,
    ttl_ms: int,
    now1: int,
    now2: int,
    scan1: Seq<EntryView>,
    scan2: Seq<EntryView>,
)
    requires
        store.wf(),
        store.can_resolve(path),
        store.scans(path, ttl_ms, now1),
        store.get_status(path, ttl_ms, now1, scan1).1.len() > 0,
        now1 < now2,
        now2 - now1 <= ttl_ms,
    ensures
        ({
            let first = store.get_status(path, ttl_ms, now1, scan1);
            let second = first.0.get_status(path, ttl_ms, now2, scan2);
            &&& !first.0.scans(path, ttl_ms, now2)
            &&& second.1 == first.1
            &&& second.0.files == first.0.files
        }),
{
    let id = store.resolved_id(path);
    let looked_up = store.resolve(path, now1);
    lemma_resolve(store, path, now1);
    lemma_scanned_rows(looked_up, id, scan1, now1);
    lemma_entries_after_scan(looked_up, id, scan1, now1);
    let first = store.get_status(path, ttl_ms, now1, scan1);
    let others = looked_up.files.filter(file_not_of(id));
    let at = others.len() as int;
    assert(first.0.files[at].repo_id == id && in_window(first.0.files[at].cache_time, ttl_ms, now2));
    lemma_resolve(first.0, path, now2);
}

/// Two status queries for one repository with no invalidation in between,
/// the first of which was answered from the cache: where one of the cached
/// rows, at least, has not run out at the second query, the second is
/// answered from the cache as well, with the rows of the first, and it
/// leaves the cached rows as they are. Where all of them have run out, the
/// second query has the repository scanned, as every query does that finds
/// nothing fresh.
pub proof fn law_second_query_from_cache(
    store: StoreView,
    path: Seq<char>,
    ttl_ms: int,
    now1: int,
    now2: int,
    scan1: Seq<EntryView>,
    scan2: Seq<EntryView>,
)
    requires
        store.wf(),
        store.can_resolve(path),
        !store.scans(path, ttl_ms, now1),
        store.get_status(path, ttl_ms, now1, scan1).0.is_fresh(
            store.resolved_id(path),
            ttl_ms,
            now2,
        ),
    ensures
        ({
            let first = store.get_status(path, ttl_ms, now1, scan1);
            let second = first.0.get_status(path, ttl_ms, now2, scan2);
            &&& !first.0.scans(path, ttl_ms, now2)
            &&& second.1 == first.1
            &&& second.0.files == first.0.files
        }),
{
    lemma_resolve(store, path, now1);
    lemma_resolve(store.resolve(path, now1), path, now2);
}

/// Invalidating a repository clears the cached rows of that repository and
/// of no other: its own rows and rollup are gone, those of every other
/// repository are as they were, and so is the queue.
pub proof fn law_invalidate_only_that_repository(
    store: StoreView,
    path: Seq<char>,
    now: int,
    other: int,
)
    requires
        store.wf(),
        store.can_resolve(path),
        other != store.resolved_id(path),
    ensures
        store.invalidate(path, now).rows_of(store.resolved_id(path)) == Seq::<FileRowView>::empty(),
        store.invalidate(path, now).rows_of(other) == store.rows_of(other),
        store.invalidate(path, now).rollups.filter(|r: RollupView| r.repo_id == other)
            == store.rollups.filter(|r: RollupView| r.repo_id == other),
        store.invalidate(path, now).rollups.filter(
            |r: RollupView| r.repo_id == store.resolved_id(path),
        ) == Seq::<RollupView>::empty(),
        store.invalidate(path, now).queue == store.queue,
{
    let id = store.resolved_id(path);
    let kept = store.files.filter(file_not_of(id));
    // The rows of the repository itself.
    lemma_filter_all_out(kept, file_of(id));
    // The rows of another repository.
    lemma_filter_filter(store.files, file_not_of(id), file_of(other));
    lemma_filter_agree(
        store.files,
        |f: FileRowView| file_not_of(id)(f) && file_of(other)(f),
        file_of(other),
    );
    // The rollups.
    let of_other = |r: RollupView| r.repo_id == other;
    let of_id = |r: RollupView| r.repo_id == id;
    let kept_rollups = store.rollups.filter(rollup_not_of(id));
    lemma_filter_all_out(kept_rollups, of_id);
    lemma_filter_filter(store.rollups, rollup_not_of(id), of_other);
    lemma_filter_agree(
        store.rollups,
        |r: RollupView| rollup_not_of(id)(r) && of_other(r),
        of_other,
    );
}

/// What is claimed as pending is pending: no operation that is running,
/// complete or failed is among the pending operations of a repository, and
/// none of another repository.
pub proof fn law_claims_are_pending(store: StoreView, repo_id: int, k: int)
    requires
        0 <= k < store.pending(repo_id).len(),
    ensures
        store.pending(repo_id)[k].status == OperationStatus::Pending,
        !store.pending(repo_id)[k].status.is_finished(),
        store.pending(repo_id)[k].repo_id == repo_id,
        store.claims(repo_id).len() == store.pending(repo_id).len(),
        store.claims(repo_id)[k] == claim(store.pending(repo_id)[k]),
        store.queue.contains(store.pending(repo_id)[k]),
{
    store.queue.lemma_filter_contains_rev(pending_of(repo_id), store.pending(repo_id)[k]);
}

} // verus!
