//! Status cache store: a registry of repositories, the cached status of
//! their files, and a queue of work for background workers.
//!
//! Times are readings of a clock in milliseconds since the Unix epoch.
//!
//! The store holds its tables in memory. Keeping them in a file, and sharing
//! that file between processes, is the business of whoever owns the store:
//! load the tables, call one operation, write the tables back, all in one
//! transaction of the file.

use crate::clock::unix_millis;
use crate::error::CoreError;
use crate::seqs::every;
use crate::seqs::lemma_filter_all;
use crate::seqs::lemma_filter_none_out;
use crate::seqs::lemma_filter_pairwise;
use crate::seqs::lemma_filter_removes_one;
use crate::seqs::pairwise;
use crate::status::FileStatus;
use crate::status::FileStatusEntry;
use crate::status::entry_views;
use crate::store::FileRowView;
use crate::store::QueuedView;
use crate::store::RepositoryView;
use crate::store::RollupView;
use crate::store::StoreView;
use crate::store::claim;
use crate::store::distinct_last;
use crate::store::entry_of;
use crate::store::file_not_of;
use crate::store::file_of;
use crate::store::files_differ;
use crate::store::in_window;
use crate::store::lemma_distinct_last_paths;
use crate::store::lemma_scanned_rows;
use crate::store::marked;
use crate::store::operation_id_within;
use crate::store::operations_in_order;
use crate::store::other_path;
use crate::store::pending_of;
use crate::store::repo_id_within;
use crate::store::repos_in_order;
use crate::store::rollup_not_of;
use crate::store::rollups_differ;
use crate::store::survives;
use crate::store::touched;
use crate::text::str_view;
use crate::text::text_view;
use vstd::prelude::*;

pub use crate::store::OperationStatus;

verus! {

/// An optional timestamp as an integer.
pub open spec fn time_view(time: Option<i64>) -> Option<int> {
    match time {
        Some(t) => Some(t as int),
        None => None,
    }
}

/// Row of the repository registry.
#[derive(Debug, Clone)]
pub struct RepositoryRecord {
    pub id: i64,
    pub path: String,
    pub last_accessed: i64,
    pub is_valid: bool,
}

impl View for RepositoryRecord {
    type V = RepositoryView;

    open spec fn view(&self) -> RepositoryView {
        RepositoryView {
            id: self.id as int,
            path: self.path@,
            last_accessed: self.last_accessed as int,
            is_valid: self.is_valid,
        }
    }
}

/// Row of the per-file status cache.
#[derive(Debug, Clone)]
pub struct FileStatusRow {
    pub repo_id: i64,
    pub file_path: String,
    pub work_tree_status: FileStatus,
    pub index_status: FileStatus,
    pub cache_time: i64,
    pub file_mtime: i64,
}

impl View for FileStatusRow {
    type V = FileRowView;

    open spec fn view(&self) -> FileRowView {
        FileRowView {
            repo_id: self.repo_id as int,
            path: self.file_path@,
            work_tree_status: self.work_tree_status,
            index_status: self.index_status,
            cache_time: self.cache_time as int,
            file_mtime: self.file_mtime as int,
        }
    }
}

/// Row of the per-repository rollup.
#[derive(Debug, Clone)]
pub struct RepoStatusRow {
    pub repo_id: i64,
    pub current_branch: Option<String>,
    pub upstream_branch: Option<String>,
    pub ahead_count: i64,
    pub behind_count: i64,
    pub merge_head: Option<String>,
    pub rebase_head: Option<String>,
    pub cache_time: i64,
}

impl View for RepoStatusRow {
    type V = RollupView;

    open spec fn view(&self) -> RollupView {
        RollupView {
            repo_id: self.repo_id as int,
            current_branch: text_view(self.current_branch),
            upstream_branch: text_view(self.upstream_branch),
            ahead_count: self.ahead_count as int,
            behind_count: self.behind_count as int,
            merge_head: text_view(self.merge_head),
            rebase_head: text_view(self.rebase_head),
            cache_time: self.cache_time as int,
        }
    }
}

/// Row of the operation queue.
#[derive(Debug, Clone)]
pub struct QueuedOperation {
    pub id: i64,
    pub repo_id: i64,
    pub operation_type: String,
    pub operation_data: String,
    pub status: OperationStatus,
    pub created_at: i64,
    pub started_at: Option<i64>,
    pub completed_at: Option<i64>,
    pub error_message: Option<String>,
}

impl View for QueuedOperation {
    type V = QueuedView;

    open spec fn view(&self) -> QueuedView {
        QueuedView {
            id: self.id as int,
            repo_id: self.repo_id as int,
            operation_type: self.operation_type@,
            operation_data: self.operation_data@,
            status: self.status,
            created_at: self.created_at as int,
            started_at: time_view(self.started_at),
            completed_at: time_view(self.completed_at),
            error_message: text_view(self.error_message),
        }
    }
}

/// The values of the rows of the registry.
pub open spec fn repository_views(rows: Seq<RepositoryRecord>) -> Seq<RepositoryView> {
    rows.map_values(|r: RepositoryRecord| r@)
}

/// The values of the rows of the file cache.
pub open spec fn file_views(rows: Seq<FileStatusRow>) -> Seq<FileRowView> {
    rows.map_values(|r: FileStatusRow| r@)
}

/// The values of the rows of the rollup table.
pub open spec fn rollup_views(rows: Seq<RepoStatusRow>) -> Seq<RollupView> {
    rows.map_values(|r: RepoStatusRow| r@)
}

/// The values of the rows of the queue.
pub open spec fn queue_views(rows: Seq<QueuedOperation>) -> Seq<QueuedView> {
    rows.map_values(|r: QueuedOperation| r@)
}

/// The values of what workers are told of pending operations.
pub open spec fn claim_views(claims: Seq<(i64, String, String)>) -> Seq<
    (int, Seq<char>, Seq<char>),
> {
    claims.map_values(|c: (i64, String, String)| (c.0 as int, c.1@, c.2@))
}

/// Version of the layout of the tables. Every program that shares a store
/// file has to agree on it.
pub const SCHEMA_VERSION: i64 = 1;

/// Whether a store file that is stamped with the layout version `found` can
/// be used: it bears the stamp of this version, or none yet, as a new file
/// does.
pub open spec fn schema_accepted(found: int) -> bool {
    found == 0 || found == SCHEMA_VERSION
}

/// Checks the layout version that a store file is stamped with. A file with
/// the stamp of another version is refused: its tables cannot be trusted to
/// mean what they mean here.
pub fn check_schema_version(found: i64) -> (r: Result<(), CoreError>)
    ensures
        r is Ok <==> schema_accepted(found as int),
        r matches Err(e) ==> e == CoreError::Storage,
{
    if found == 0 || found == SCHEMA_VERSION {
        Ok(())
    } else {
        Err(CoreError::Storage)
    }
}

/// Answer of the cache to a status query.
#[derive(Debug, Clone)]
pub enum StatusLookup {
    /// The cache is fresh: these are the rows of the repository.
    Fresh(Vec<FileStatusEntry>),
    /// Nothing fresh is cached: the repository has to be scanned, and the
    /// scan cached under this identifier.
    Rescan { repo_id: i64 },
}

impl StatusLookup {
    /// Whether this is the answer of `store` to a status query for
    /// repository `repo_id` at `now`.
    pub open spec fn answers(self, store: StoreView, repo_id: int, ttl_ms: int, now: int) -> bool {
        match self {
            StatusLookup::Fresh(entries) => store.is_fresh(repo_id, ttl_ms, now) && entry_views(
                entries@,
            ) == store.entries_of(repo_id),
            StatusLookup::Rescan { repo_id: id } => !store.is_fresh(repo_id, ttl_ms, now) && id
                == repo_id,
        }
    }
}

/// With a time-to-live of zero the answer to a status query is never taken
/// from the cache: it always asks for a scan.
pub proof fn law_zero_ttl_answer_is_rescan(
    lookup: StatusLookup,
    store: StoreView,
    repo_id: int,
    now: int,
)
    requires
        lookup.answers(store, repo_id, 0, now),
    ensures
        lookup is Rescan,
{
}

/// Position of the entry for `path`.
fn position_of_path(entries: &Vec<FileStatusEntry>, path: &String) -> (r: Option<usize>)
    ensures
        match r {
            Some(j) => j < entries.len() && entries[j as int].path@ == path@,
            None => forall|k: int| 0 <= k < entries.len() ==> (#[trigger] entries[k]).path@ != path@,
        },
{
    let mut j: usize = 0;
    while j < entries.len()
        invariant
            j <= entries.len(),
            forall|k: int| 0 <= k < j ==> (#[trigger] entries[k]).path@ != path@,
        decreases entries.len() - j,
    {
        if entries[j].path == *path {
            return Some(j);
        }
        j = j + 1;
    }
    None
}

/// One entry per path: of the entries for one path the last one counts, and
/// the entries stand in the order of those last occurrences.
pub fn latest_per_path(entries: &[FileStatusEntry]) -> (out: Vec<FileStatusEntry>)
    ensures
        entry_views(out@) == distinct_last(entry_views(entries@)),
{
    let ghost all = entry_views(entries@);
    let mut out: Vec<FileStatusEntry> = Vec::new();
    let mut i: usize = 0;
    while i < entries.len()
        invariant
            i <= entries.len(),
            all == entry_views(entries@),
            entry_views(out@) == distinct_last(all.take(i as int)),
        decreases entries.len() - i,
    {
        let entry = &entries[i];
        let ghost before = entry_views(out@);
        let ghost keep = other_path(entry.path@);
        proof {
            lemma_distinct_last_paths(all.take(i as int));
            assert(all.take(i + 1).drop_last() =~= all.take(i as int));
        }
        match position_of_path(&out, &entry.path) {
            Some(j) => {
                proof {
                    lemma_filter_removes_one(before, keep, j as int);
                }
                out.remove(j);
            },
            None => {
                proof {
                    lemma_filter_none_out(before, keep);
                }
            },
        }
        let fresh = FileStatusEntry { path: entry.path.clone(), status: entry.status };
        out.push(fresh);
        i = i + 1;
    }
    assert(all.take(i as int) =~= all);
    out
}

/// The store that the given tables and counters make up.
pub open spec fn tables_view(
    repositories: Seq<RepositoryRecord>,
    file_status: Seq<FileStatusRow>,
    repo_status: Seq<RepoStatusRow>,
    operation_queue: Seq<QueuedOperation>,
    last_repo_id: i64,
    last_operation_id: i64,
) -> StoreView {
    StoreView {
        repos: repository_views(repositories),
        files: file_views(file_status),
        rollups: rollup_views(repo_status),
        queue: queue_views(operation_queue),
        last_repo_id: last_repo_id as int,
        last_operation_id: last_operation_id as int,
    }
}

/// Whether the registry is as a store leaves it: identifiers in `1..=last`
/// that grow, and no path twice.
fn repositories_valid(rows: &Vec<RepositoryRecord>, last: i64) -> (ok: bool)
    ensures
        ok == (every(repository_views(rows@), repo_id_within(last as int)) && pairwise(
            repository_views(rows@),
            repos_in_order(),
        )),
{
    let ghost views = repository_views(rows@);
    let mut i: usize = 0;
    while i < rows.len()
        invariant
            i <= rows.len(),
            views == repository_views(rows@),
            forall|a: int| 0 <= a < i ==> repo_id_within(last as int)(#[trigger] views[a]),
            forall|a: int, b: int|
                #![trigger views[a], views[b]]
                0 <= a < b < views.len() && a < i ==> repos_in_order()(views[a], views[b]),
        decreases rows.len() - i,
    {
        if rows[i].id < 1 || rows[i].id > last {
            assert(!repo_id_within(last as int)(views[i as int]));
            return false;
        }
        let mut j: usize = i + 1;
        while j < rows.len()
            invariant
                i < j <= rows.len(),
                views == repository_views(rows@),
                forall|b: int| i < b < j ==> repos_in_order()(views[i as int], #[trigger] views[b]),
            decreases rows.len() - j,
        {
            if rows[i].id >= rows[j].id || rows[i].path == rows[j].path {
                assert(!repos_in_order()(views[i as int], views[j as int]));
                return false;
            }
            j = j + 1;
        }
        i = i + 1;
    }
    true
}

/// Whether the file cache is as a store leaves it: no file twice for one
/// repository.
fn file_rows_valid(rows: &Vec<FileStatusRow>) -> (ok: bool)
    ensures
        ok == pairwise(file_views(rows@), files_differ()),
{
    let ghost views = file_views(rows@);
    let mut i: usize = 0;
    while i < rows.len()
        invariant
            i <= rows.len(),
            views == file_views(rows@),
            forall|a: int, b: int|
                #![trigger views[a], views[b]]
                0 <= a < b < views.len() && a < i ==> files_differ()(views[a], views[b]),
        decreases rows.len() - i,
    {
        let mut j: usize = i + 1;
        while j < rows.len()
            invariant
                i < j <= rows.len(),
                views == file_views(rows@),
                forall|b: int| i < b < j ==> files_differ()(views[i as int], #[trigger] views[b]),
            decreases rows.len() - j,
        {
            if rows[i].repo_id == rows[j].repo_id && rows[i].file_path == rows[j].file_path {
                assert(!files_differ()(views[i as int], views[j as int]));
                return false;
            }
            j = j + 1;
        }
        i = i + 1;
    }
    true
}

/// Whether the rollup table is as a store leaves it: no repository twice.
fn rollups_valid(rows: &Vec<RepoStatusRow>) -> (ok: bool)
    ensures
        ok == pairwise(rollup_views(rows@), rollups_differ()),
{
    let ghost views = rollup_views(rows@);
    let mut i: usize = 0;
    while i < rows.len()
        invariant
            i <= rows.len(),
            views == rollup_views(rows@),
            forall|a: int, b: int|
                #![trigger views[a], views[b]]
                0 <= a < b < views.len() && a < i ==> rollups_differ()(views[a], views[b]),
        decreases rows.len() - i,
    {
        let mut j: usize = i + 1;
        while j < rows.len()
            invariant
                i < j <= rows.len(),
                views == rollup_views(rows@),
                forall|b: int| i < b < j ==> rollups_differ()(views[i as int], #[trigger] views[b]),
            decreases rows.len() - j,
        {
            if rows[i].repo_id == rows[j].repo_id {
                assert(!rollups_differ()(views[i as int], views[j as int]));
                return false;
            }
            j = j + 1;
        }
        i = i + 1;
    }
    true
}

/// Whether the queue is as a store leaves it: identifiers in `1..=last`
/// that grow.
fn queue_valid(rows: &Vec<QueuedOperation>, last: i64) -> (ok: bool)
    ensures
        ok == (every(queue_views(rows@), operation_id_within(last as int)) && pairwise(
            queue_views(rows@),
            operations_in_order(),
        )),
{
    let ghost views = queue_views(rows@);
    let mut i: usize = 0;
    while i < rows.len()
        invariant
            i <= rows.len(),
            views == queue_views(rows@),
            forall|a: int| 0 <= a < i ==> operation_id_within(last as int)(#[trigger] views[a]),
            forall|a: int, b: int|
                #![trigger views[a], views[b]]
                0 <= a < b < i ==> operations_in_order()(views[a], views[b]),
        decreases rows.len() - i,
    {
        if rows[i].id < 1 || rows[i].id > last {
            assert(!operation_id_within(last as int)(views[i as int]));
            return false;
        }
        if i > 0 && rows[i - 1].id >= rows[i].id {
            assert(!operations_in_order()(views[i - 1], views[i as int]));
            return false;
        }
        proof {
            assert forall|a: int| 0 <= a < i implies operations_in_order()(
                #[trigger] views[a],
                views[i as int],
            ) by {
                if a < i - 1 {
                    assert(operations_in_order()(views[a], views[i - 1]));
                }
            }
        }
        i = i + 1;
    }
    true
}

/// The status cache store.
#[derive(Debug)]
pub struct StatusCache {
    repositories: Vec<RepositoryRecord>,
    file_status: Vec<FileStatusRow>,
    repo_status: Vec<RepoStatusRow>,
    operation_queue: Vec<QueuedOperation>,
    last_repo_id: i64,
    last_operation_id: i64,
}

impl View for StatusCache {
    type V = StoreView;

    closed spec fn view(&self) -> StoreView {
        StoreView {
            repos: repository_views(self.repositories@),
            files: file_views(self.file_status@),
            rollups: rollup_views(self.repo_status@),
            queue: queue_views(self.operation_queue@),
            last_repo_id: self.last_repo_id as int,
            last_operation_id: self.last_operation_id as int,
        }
    }
}

impl StatusCache {
    /// The invariant of the store, which every method keeps.
    pub open spec fn wf(&self) -> bool {
        self@.wf()
    }

    /// An empty store.
    pub fn in_memory() -> (r: Result<StatusCache, CoreError>)
        ensures
            r matches Ok(cache) && cache.wf() && cache@ == StoreView::empty(),
    {
        let cache = StatusCache {
            repositories: Vec::new(),
            file_status: Vec::new(),
            repo_status: Vec::new(),
            operation_queue: Vec::new(),
            last_repo_id: 0,
            last_operation_id: 0,
        };
        assert(cache@.repos =~= Seq::empty());
        assert(cache@.files =~= Seq::empty());
        assert(cache@.rollups =~= Seq::empty());
        assert(cache@.queue =~= Seq::empty());
        Ok(cache)
    }

    /// Position of the repository registered under `path`.
    fn find_path(&self, path: &String) -> (r: Option<usize>)
        requires
            self.wf(),
        ensures
            match r {
                Some(i) => i < self.repositories.len() && self.repositories[i as int].path@
                    == path@ && self@.registered(path@) && self@.id_of(path@)
                    == self.repositories[i as int].id,
                None => !self@.registered(path@),
            },
    {
        let mut i: usize = 0;
        while i < self.repositories.len()
            invariant
                i <= self.repositories.len(),
                self.wf(),
                forall|k: int| 0 <= k < i ==> (#[trigger] self@.repos[k]).path != path@,
            decreases self.repositories.len() - i,
        {
            if self.repositories[i].path == *path {
                assert(self@.repos[i as int].path == path@);
                return Some(i);
            }
            i = i + 1;
        }
        None
    }

    /// Looks the repository at `repo_path` up at time `now`, registering it
    /// if it is not known yet, and gives its identifier. Fails only when no
    /// identifier is left for a new repository.
    pub fn get_repo_id_at(&mut self, repo_path: &str, now: i64) -> (r: Result<i64, CoreError>)
        requires
            old(self).wf(),
        ensures
            final(self).wf(),
            r is Ok <==> old(self)@.can_resolve(repo_path@),
            match r {
                Ok(id) => id == old(self)@.resolved_id(repo_path@) && final(self)@ == old(
                    self,
                )@.resolve(repo_path@, now as int),
                Err(e) => e == CoreError::Storage && final(self)@ == old(self)@,
            },
    {
        let path = repo_path.to_owned();
        match self.find_path(&path) {
            Some(i) => {
                self.repositories[i].last_accessed = now;
                let id = self.repositories[i].id;
                proof {
                    let before = old(self)@.repos;
                    assert forall|k: int| 0 <= k < before.len() implies self@.repos[k] == touched(
                        before[k],
                        repo_path@,
                        now as int,
                    ) by {
                        if k < i {
                            assert(before[k].path != before[i as int].path);
                        } else if k > i {
                            assert(before[i as int].path != before[k].path);
                        }
                    }
                    assert(self@.repos =~= old(self)@.resolve(repo_path@, now as int).repos);
                }
                Ok(id)
            },
            None => {
                if self.last_repo_id < i64::MAX {
                    let id = self.last_repo_id + 1;
                    self.repositories.push(
                        RepositoryRecord { id, path, last_accessed: now, is_valid: true },
                    );
                    self.last_repo_id = id;
                    assert(self@.repos =~= old(self)@.resolve(repo_path@, now as int).repos);
                    Ok(id)
                } else {
                    Err(CoreError::Storage)
                }
            },
        }
    }

    /// Position of the operation queued under `id`.
    fn find_operation(&self, id: i64) -> (r: Option<usize>)
        ensures
            match r {
                Some(i) => i < self.operation_queue.len() && self.operation_queue[i as int].id
                    == id && self@.has_operation(id as int),
                None => !self@.has_operation(id as int),
            },
    {
        let mut i: usize = 0;
        while i < self.operation_queue.len()
            invariant
                i <= self.operation_queue.len(),
                forall|k: int| 0 <= k < i ==> (#[trigger] self@.queue[k]).id != id,
            decreases self.operation_queue.len() - i,
        {
            if self.operation_queue[i].id == id {
                assert(self@.queue[i as int].id == id);
                return Some(i);
            }
            i = i + 1;
        }
        None
    }

    /// Queues an operation for the repository at `repo_path` at time `now`
    /// and gives its identifier. The operation waits as Pending; nothing is
    /// executed. Fails, and changes nothing, only when no identifier is left.
    pub fn queue_operation_at(
        &mut self,
        repo_path: &str,
        operation_type: &str,
        operation_data: &str,
        now: i64,
    ) -> (r: Result<i64, CoreError>)
        requires
            old(self).wf(),
        ensures
            final(self).wf(),
            final(self)@ == old(self)@.enqueue(
                repo_path@,
                operation_type@,
                operation_data@,
                now as int,
            ),
            match r {
                Ok(id) => old(self)@.can_enqueue(repo_path@) && id == old(self)@.last_operation_id
                    + 1,
                Err(e) => !old(self)@.can_enqueue(repo_path@) && e == CoreError::Storage,
            },
    {
        if self.last_operation_id == i64::MAX {
            return Err(CoreError::Storage);
        }
        let repo_id = self.get_repo_id_at(repo_path, now)?;
        let id = self.last_operation_id + 1;
        self.operation_queue.push(
            QueuedOperation {
                id,
                repo_id,
                operation_type: operation_type.to_owned(),
                operation_data: operation_data.to_owned(),
                status: OperationStatus::Pending,
                created_at: now,
                started_at: None,
                completed_at: None,
                error_message: None,
            },
        );
        self.last_operation_id = id;
        proof {
            let before = old(self)@;
            let after = before.enqueue(repo_path@, operation_type@, operation_data@, now as int);
            assert(self@.queue =~= after.queue);
        }
        Ok(id)
    }

    /// The pending operations of the repository at `repo_path`, oldest
    /// first, each as identifier, type and payload. The path is looked up at
    /// time `now`; the queue is left as it is, and no operation is reserved
    /// for the caller.
    pub fn get_pending_operations_at(&mut self, repo_path: &str, now: i64) -> (r: Result<
        Vec<(i64, String, String)>,
        CoreError,
    >)
        requires
            old(self).wf(),
        ensures
            final(self).wf(),
            r is Ok <==> old(self)@.can_resolve(repo_path@),
            match r {
                Ok(claims) => final(self)@ == old(self)@.resolve(repo_path@, now as int)
                    && claim_views(claims@) == final(self)@.claims(
                    old(self)@.resolved_id(repo_path@),
                ),
                Err(e) => e == CoreError::Storage && final(self)@ == old(self)@,
            },
    {
        let repo_id = self.get_repo_id_at(repo_path, now)?;
        let ghost pred = pending_of(repo_id as int);
        let ghost queue = self@.queue;
        let mut out: Vec<(i64, String, String)> = Vec::new();
        let mut i: usize = 0;
        while i < self.operation_queue.len()
            invariant
                i <= self.operation_queue.len(),
                queue == self@.queue,
                pred == pending_of(repo_id as int),
                claim_views(out@) == queue.take(i as int).filter(pred).map_values(
                    |q: QueuedView| claim(q),
                ),
            decreases self.operation_queue.len() - i,
        {
            let q = &self.operation_queue[i];
            let selected = q.repo_id == repo_id && q.status == OperationStatus::Pending;
            proof {
                queue.lemma_take_succ_push(i as int);
                queue.take(i as int).lemma_filter_push(q@, pred);
            }
            if selected {
                let told = (q.id, q.operation_type.clone(), q.operation_data.clone());
                proof {
                    assert(queue.take(i as int).filter(pred).push(q@).map_values(
                        |q: QueuedView| claim(q),
                    ) =~= queue.take(i as int).filter(pred).map_values(
                        |q: QueuedView| claim(q),
                    ).push(claim(q@)));
                }
                out.push(told);
            }
            i = i + 1;
        }
        assert(queue.take(i as int) =~= queue);
        Ok(out)
    }

    /// Records what a worker reports of operation `operation_id` at time
    /// `now`. Running stamps the start; Complete and Failed stamp the end and
    /// set the error text, or clear it; Pending changes nothing. Fails, and
    /// changes nothing, when no operation has that identifier.
    pub fn update_operation_status_at(
        &mut self,
        operation_id: i64,
        status: OperationStatus,
        error_message: Option<&str>,
        now: i64,
    ) -> (r: Result<(), CoreError>)
        requires
            old(self).wf(),
        ensures
            final(self).wf(),
            r is Ok <==> old(self)@.has_operation(operation_id as int),
            match r {
                Ok(_) => final(self)@ == old(self)@.mark(
                    operation_id as int,
                    status,
                    str_view(error_message),
                    now as int,
                ),
                Err(e) => e == CoreError::NotFound && final(self)@ == old(self)@,
            },
    {
        match self.find_operation(operation_id) {
            Some(i) => {
                match status {
                    OperationStatus::Pending => {},
                    OperationStatus::Running => {
                        self.operation_queue[i].status = status;
                        self.operation_queue[i].started_at = Some(now);
                    },
                    OperationStatus::Complete | OperationStatus::Failed => {
                        self.operation_queue[i].status = status;
                        self.operation_queue[i].completed_at = Some(now);
                        self.operation_queue[i].error_message = match error_message {
                            Some(text) => Some(text.to_owned()),
                            None => None,
                        };
                    },
                }
                proof {
                    let before = old(self)@.queue;
                    assert forall|k: int| 0 <= k < before.len() implies self@.queue[k] == marked(
                        before[k],
                        operation_id as int,
                        status,
                        str_view(error_message),
                        now as int,
                    ) by {
                        if !(k < i) && k > i {
                            assert(before[i as int].id < before[k].id);
                        }
                    }
                    assert(self@.queue =~= old(self)@.mark(
                        operation_id as int,
                        status,
                        str_view(error_message),
                        now as int,
                    ).queue);
                }
                Ok(())
            },
            None => Err(CoreError::NotFound),
        }
    }

    /// Drops what is cached of the repository at `repo_path`: its file rows
    /// and its rollup. The path is looked up at time `now`. The rows of other
    /// repositories and the queue are left as they are.
    pub fn invalidate_repo_at(&mut self, repo_path: &str, now: i64) -> (r: Result<(), CoreError>)
        requires
            old(self).wf(),
        ensures
            final(self).wf(),
            final(self)@ == old(self)@.invalidate(repo_path@, now as int),
            match r {
                Ok(_) => old(self)@.can_resolve(repo_path@),
                Err(e) => !old(self)@.can_resolve(repo_path@) && e == CoreError::Storage,
            },
    {
        let repo_id = self.get_repo_id_at(repo_path, now)?;
        let ghost looked_up = self@;
        self.drop_file_rows(repo_id);
        let mut rollups: Vec<RepoStatusRow> = Vec::new();
        core::mem::swap(&mut self.repo_status, &mut rollups);
        let ghost pred = rollup_not_of(repo_id as int);
        let ghost all = rollup_views(rollups@);
        for row in it: rollups
            invariant
                all == rollup_views(it.seq()),
                pred == rollup_not_of(repo_id as int),
                rollup_views(self.repo_status@) == all.take(it.index() as int).filter(pred),
                self@.repos == looked_up.repos,
                self@.queue == looked_up.queue,
                self@.files == looked_up.files.filter(file_not_of(repo_id as int)),
                self@.last_repo_id == looked_up.last_repo_id,
                self@.last_operation_id == looked_up.last_operation_id,
        {
            proof {
                all.lemma_take_succ_push(it.index() as int);
                all.take(it.index() as int).lemma_filter_push(row@, pred);
            }
            if row.repo_id != repo_id {
                self.repo_status.push(row);
            }
        }
        proof {
            assert(all.take(all.len() as int) =~= all);
            lemma_filter_pairwise(looked_up.rollups, pred, rollups_differ());
        }
        Ok(())
    }

    /// Drops the file rows of repository `repo_id`.
    fn drop_file_rows(&mut self, repo_id: i64)
        requires
            old(self).wf(),
        ensures
            final(self).wf(),
            final(self)@ == (StoreView {
                files: old(self)@.files.filter(file_not_of(repo_id as int)),
                ..old(self)@
            }),
    {
        let mut rows: Vec<FileStatusRow> = Vec::new();
        core::mem::swap(&mut self.file_status, &mut rows);
        let ghost pred = file_not_of(repo_id as int);
        let ghost all = file_views(rows@);
        for row in it: rows
            invariant
                all == file_views(it.seq()),
                pred == file_not_of(repo_id as int),
                file_views(self.file_status@) == all.take(it.index() as int).filter(pred),
                self@.repos == old(self)@.repos,
                self@.queue == old(self)@.queue,
                self@.rollups == old(self)@.rollups,
                self@.last_repo_id == old(self)@.last_repo_id,
                self@.last_operation_id == old(self)@.last_operation_id,
        {
            proof {
                all.lemma_take_succ_push(it.index() as int);
                all.take(it.index() as int).lemma_filter_push(row@, pred);
            }
            if row.repo_id != repo_id {
                self.file_status.push(row);
            }
        }
        proof {
            assert(all.take(all.len() as int) =~= all);
            lemma_filter_pairwise(old(self)@.files, pred, files_differ());
        }
    }

    /// Removes the finished operations that ended more than
    /// `max_age_seconds` before `now`, and gives their number. Operations
    /// that are pending or running stay, whatever their age.
    pub fn cleanup_operations_at(&mut self, max_age_seconds: i64, now: i64) -> (r: Result<
        usize,
        CoreError,
    >)
        requires
            old(self).wf(),
        ensures
            final(self).wf(),
            final(self)@ == old(self)@.sweep(max_age_seconds as int, now as int),
            r matches Ok(deleted) && deleted == old(self)@.swept(
                max_age_seconds as int,
                now as int,
            ),
    {
        let mut rows: Vec<QueuedOperation> = Vec::new();
        core::mem::swap(&mut self.operation_queue, &mut rows);
        let before = rows.len();
        let ghost pred = survives(max_age_seconds as int, now as int);
        let ghost all = queue_views(rows@);
        for row in it: rows
            invariant
                all == queue_views(it.seq()),
                pred == survives(max_age_seconds as int, now as int),
                queue_views(self.operation_queue@) == all.take(it.index() as int).filter(pred),
                self@.repos == old(self)@.repos,
                self@.files == old(self)@.files,
                self@.rollups == old(self)@.rollups,
                self@.last_repo_id == old(self)@.last_repo_id,
                self@.last_operation_id == old(self)@.last_operation_id,
        {
            let finished = match row.status {
                OperationStatus::Complete | OperationStatus::Failed => true,
                _ => false,
            };
            let gone = finished && match row.completed_at {
                Some(ended) => (ended as i128) < (now as i128) - (max_age_seconds as i128)
                    * 1000,
                None => false,
            };
            proof {
                all.lemma_take_succ_push(it.index() as int);
                all.take(it.index() as int).lemma_filter_push(row@, pred);
            }
            if !gone {
                self.operation_queue.push(row);
            }
        }
        proof {
            assert(all.take(all.len() as int) =~= all);
            lemma_filter_pairwise(old(self)@.queue, pred, operations_in_order());
            lemma_filter_all(
                old(self)@.queue,
                pred,
                operation_id_within(old(self)@.last_operation_id),
            );
        }
        Ok(before - self.operation_queue.len())
    }

    /// Answers a status query for the repository at `repo_path` at time
    /// `now`, from the cache if it can. The cache of a repository is fresh
    /// when one of its rows, at least, was cached before `now` and no more
    /// than `ttl_ms` milliseconds before it; then all rows of the
    /// repository are the answer. Otherwise the caller has to scan the
    /// repository and hand the scan to [`StatusCache::complete_status_at`].
    /// A repository without cached rows is never fresh, so a clean
    /// repository is scanned on every query; and with a time-to-live of zero
    /// nothing is fresh.
    pub fn get_cached_status_at(&mut self, repo_path: &str, ttl_ms: u64, now: i64) -> (r: Result<
        StatusLookup,
        CoreError,
    >)
        requires
            old(self).wf(),
        ensures
            final(self).wf(),
            r is Ok <==> old(self)@.can_resolve(repo_path@),
            match r {
                Ok(lookup) => final(self)@ == old(self)@.resolve(repo_path@, now as int)
                    && lookup.answers(
                    final(self)@,
                    old(self)@.resolved_id(repo_path@),
                    ttl_ms as int,
                    now as int,
                ),
                Err(e) => e == CoreError::Storage && final(self)@ == old(self)@,
            },
    {
        let repo_id = self.get_repo_id_at(repo_path, now)?;
        let ghost pred = file_of(repo_id as int);
        let ghost files = self@.files;
        let mut fresh = false;
        let mut out: Vec<FileStatusEntry> = Vec::new();
        let mut i: usize = 0;
        while i < self.file_status.len()
            invariant
                i <= self.file_status.len(),
                files == self@.files,
                pred == file_of(repo_id as int),
                fresh <==> exists|k: int|
                    0 <= k < i && (#[trigger] files[k]).repo_id == repo_id && in_window(
                        files[k].cache_time,
                        ttl_ms as int,
                        now as int,
                    ),
                entry_views(out@) == files.take(i as int).filter(pred).map_values(
                    |f: FileRowView| entry_of(f),
                ),
            decreases self.file_status.len() - i,
        {
            let row = &self.file_status[i];
            let selected = row.repo_id == repo_id;
            proof {
                files.lemma_take_succ_push(i as int);
                files.take(i as int).lemma_filter_push(row@, pred);
            }
            if selected {
                if (now as i128) - (ttl_ms as i128) <= row.cache_time as i128 && row.cache_time
                    < now {
                    fresh = true;
                }
                let entry = FileStatusEntry { path: row.file_path.clone(), status: row.work_tree_status };
                proof {
                    assert(files.take(i as int).filter(pred).push(row@).map_values(
                        |f: FileRowView| entry_of(f),
                    ) =~= files.take(i as int).filter(pred).map_values(
                        |f: FileRowView| entry_of(f),
                    ).push(entry_of(row@)));
                }
                out.push(entry);
            }
            i = i + 1;
        }
        assert(files.take(i as int) =~= files);
        if fresh {
            Ok(StatusLookup::Fresh(out))
        } else {
            Ok(StatusLookup::Rescan { repo_id })
        }
    }

    /// Whether a repository is registered under the identifier `repo_id`.
    fn knows_repo_id(&self, repo_id: i64) -> (known: bool)
        ensures
            known == self@.has_repo(repo_id as int),
    {
        let mut i: usize = 0;
        while i < self.repositories.len()
            invariant
                i <= self.repositories.len(),
                forall|k: int| 0 <= k < i ==> (#[trigger] self@.repos[k]).id != repo_id,
            decreases self.repositories.len() - i,
        {
            if self.repositories[i].id == repo_id {
                assert(self@.repos[i as int].id == repo_id);
                return true;
            }
            i = i + 1;
        }
        false
    }

    /// Caches a scan of repository `repo_id` that was made at time `now`, and
    /// gives the entries as they are cached. The rows of the repository are
    /// replaced as a whole: what was cached of it before is gone, also for
    /// files that the scan does not mention. Where the scan names a path
    /// more than once, its last entry counts. Fails, and changes nothing,
    /// when no repository has that identifier.
    pub fn cache_status_at(&mut self, repo_id: i64, entries: &[FileStatusEntry], now: i64) -> (r:
        Result<Vec<FileStatusEntry>, CoreError>)
        requires
            old(self).wf(),
        ensures
            final(self).wf(),
            final(self)@ == old(self)@.store_scan(
                repo_id as int,
                entry_views(entries@),
                now as int,
            ),
            match r {
                Ok(stored) => old(self)@.has_repo(repo_id as int) && entry_views(stored@)
                    == distinct_last(entry_views(entries@)),
                Err(e) => !old(self)@.has_repo(repo_id as int) && e == CoreError::NotFound,
            },
    {
        if !self.knows_repo_id(repo_id) {
            return Err(CoreError::NotFound);
        }
        let stored = latest_per_path(entries);
        self.drop_file_rows(repo_id);
        let ghost base = self@.files;
        let ghost scanned = StoreView::scanned_rows(
            repo_id as int,
            entry_views(entries@),
            now as int,
        );
        let mut i: usize = 0;
        while i < stored.len()
            invariant
                i <= stored.len(),
                entry_views(stored@) == distinct_last(entry_views(entries@)),
                scanned == StoreView::scanned_rows(
                    repo_id as int,
                    entry_views(entries@),
                    now as int,
                ),
                self@.files == base + scanned.take(i as int),
                self@.repos == old(self)@.repos,
                self@.queue == old(self)@.queue,
                self@.rollups == old(self)@.rollups,
                self@.last_repo_id == old(self)@.last_repo_id,
                self@.last_operation_id == old(self)@.last_operation_id,
            decreases stored.len() - i,
        {
            let entry = &stored[i];
            let row = FileStatusRow {
                repo_id,
                file_path: entry.path.clone(),
                work_tree_status: entry.status,
                index_status: FileStatus::Clean,
                cache_time: now,
                file_mtime: now,
            };
            proof {
                assert(file_views(self.file_status@.push(row)) =~= file_views(
                    self.file_status@,
                ).push(row@));
            }
            self.file_status.push(row);
            i = i + 1;
        }
        proof {
            assert(scanned.take(i as int) =~= scanned);
            lemma_scanned_rows(old(self)@, repo_id as int, entry_views(entries@), now as int);
        }
        Ok(stored)
    }

    /// A store over tables that were persisted earlier. The tables are
    /// checked against the invariant of the store; tables that break it were
    /// not written by a store, and are refused.
    pub fn from_tables(
        repositories: Vec<RepositoryRecord>,
        file_status: Vec<FileStatusRow>,
        repo_status: Vec<RepoStatusRow>,
        operation_queue: Vec<QueuedOperation>,
        last_repo_id: i64,
        last_operation_id: i64,
    ) -> (r: Result<StatusCache, CoreError>)
        ensures
            r is Ok <==> tables_view(
                repositories@,
                file_status@,
                repo_status@,
                operation_queue@,
                last_repo_id,
                last_operation_id,
            ).wf(),
            match r {
                Ok(cache) => cache.wf() && cache@ == tables_view(
                    repositories@,
                    file_status@,
                    repo_status@,
                    operation_queue@,
                    last_repo_id,
                    last_operation_id,
                ),
                Err(e) => e == CoreError::Storage,
            },
    {
        if last_repo_id < 0 || last_operation_id < 0 {
            return Err(CoreError::Storage);
        }
        if !repositories_valid(&repositories, last_repo_id) {
            return Err(CoreError::Storage);
        }
        if !file_rows_valid(&file_status) {
            return Err(CoreError::Storage);
        }
        if !rollups_valid(&repo_status) {
            return Err(CoreError::Storage);
        }
        if !queue_valid(&operation_queue, last_operation_id) {
            return Err(CoreError::Storage);
        }
        Ok(
            StatusCache {
                repositories,
                file_status,
                repo_status,
                operation_queue,
                last_repo_id,
                last_operation_id,
            },
        )
    }

    /// The rows of the repository registry, oldest first.
    pub fn repositories(&self) -> (rows: &[RepositoryRecord])
        ensures
            repository_views(rows@) == self@.repos,
    {
        self.repositories.as_slice()
    }

    /// The rows of the file cache.
    pub fn file_rows(&self) -> (rows: &[FileStatusRow])
        ensures
            file_views(rows@) == self@.files,
    {
        self.file_status.as_slice()
    }

    /// The rows of the rollup table.
    pub fn rollup_rows(&self) -> (rows: &[RepoStatusRow])
        ensures
            rollup_views(rows@) == self@.rollups,
    {
        self.repo_status.as_slice()
    }

    /// The rows of the operation queue, oldest first.
    pub fn queued_operations(&self) -> (rows: &[QueuedOperation])
        ensures
            queue_views(rows@) == self@.queue,
    {
        self.operation_queue.as_slice()
    }

    /// The highest repository identifier handed out so far.
    pub fn last_repo_id(&self) -> (id: i64)
        ensures
            id == self@.last_repo_id,
    {
        self.last_repo_id
    }

    /// The highest operation identifier handed out so far.
    pub fn last_operation_id(&self) -> (id: i64)
        ensures
            id == self@.last_operation_id,
    {
        self.last_operation_id
    }

    /// Looks the repository at `repo_path` up now. See
    /// [`StatusCache::get_repo_id_at`].
    pub fn get_repo_id(&mut self, repo_path: &str) -> (r: Result<i64, CoreError>)
        requires
            old(self).wf(),
        ensures
            final(self).wf(),
            r is Ok <==> old(self)@.can_resolve(repo_path@),
            match r {
                Ok(id) => id == old(self)@.resolved_id(repo_path@) && exists|now: int|
                    0 <= now <= i64::MAX && final(self)@ == #[trigger] old(self)@.resolve(repo_path@, now),
                Err(e) => e == CoreError::Storage && final(self)@ == old(self)@,
            },
    {
        let now = unix_millis();
        self.get_repo_id_at(repo_path, now)
    }

    /// Queues an operation now. See [`StatusCache::queue_operation_at`].
    pub fn queue_operation(
        &mut self,
        repo_path: &str,
        operation_type: &str,
        operation_data: &str,
    ) -> (r: Result<i64, CoreError>)
        requires
            old(self).wf(),
        ensures
            final(self).wf(),
            exists|now: int|
                0 <= now <= i64::MAX && final(self)@ == #[trigger] old(self)@.enqueue(
                    repo_path@,
                    operation_type@,
                    operation_data@,
                    now,
                ),
            match r {
                Ok(id) => old(self)@.can_enqueue(repo_path@) && id == old(self)@.last_operation_id
                    + 1,
                Err(e) => !old(self)@.can_enqueue(repo_path@) && e == CoreError::Storage,
            },
    {
        let now = unix_millis();
        self.queue_operation_at(repo_path, operation_type, operation_data, now)
    }

    /// The pending operations of a repository, looked up now. See
    /// [`StatusCache::get_pending_operations_at`].
    pub fn get_pending_operations(&mut self, repo_path: &str) -> (r: Result<
        Vec<(i64, String, String)>,
        CoreError,
    >)
        requires
            old(self).wf(),
        ensures
            final(self).wf(),
            r is Ok <==> old(self)@.can_resolve(repo_path@),
            match r {
                Ok(claims) => (exists|now: int|
                    0 <= now <= i64::MAX && final(self)@ == #[trigger] old(self)@.resolve(repo_path@, now))
                    && claim_views(claims@) == final(self)@.claims(
                    old(self)@.resolved_id(repo_path@),
                ),
                Err(e) => e == CoreError::Storage && final(self)@ == old(self)@,
            },
    {
        let now = unix_millis();
        self.get_pending_operations_at(repo_path, now)
    }

    /// Records now what a worker reports. See
    /// [`StatusCache::update_operation_status_at`].
    pub fn update_operation_status(
        &mut self,
        operation_id: i64,
        status: OperationStatus,
        error_message: Option<&str>,
    ) -> (r: Result<(), CoreError>)
        requires
            old(self).wf(),
        ensures
            final(self).wf(),
            r is Ok <==> old(self)@.has_operation(operation_id as int),
            match r {
                Ok(_) => exists|now: int|
                    0 <= now <= i64::MAX && final(self)@ == #[trigger] old(self)@.mark(
                        operation_id as int,
                        status,
                        str_view(error_message),
                        now,
                    ),
                Err(e) => e == CoreError::NotFound && final(self)@ == old(self)@,
            },
    {
        let now = unix_millis();
        self.update_operation_status_at(operation_id, status, error_message, now)
    }

    /// Drops now what is cached of a repository. See
    /// [`StatusCache::invalidate_repo_at`].
    pub fn invalidate_repo(&mut self, repo_path: &str) -> (r: Result<(), CoreError>)
        requires
            old(self).wf(),
        ensures
            final(self).wf(),
            exists|now: int|
                0 <= now <= i64::MAX && final(self)@ == #[trigger] old(self)@.invalidate(repo_path@, now),
            match r {
                Ok(_) => old(self)@.can_resolve(repo_path@),
                Err(e) => !old(self)@.can_resolve(repo_path@) && e == CoreError::Storage,
            },
    {
        let now = unix_millis();
        self.invalidate_repo_at(repo_path, now)
    }

    /// Sweeps the queue now. See [`StatusCache::cleanup_operations_at`].
    pub fn cleanup_operations(&mut self, max_age_seconds: i64) -> (r: Result<usize, CoreError>)
        requires
            old(self).wf(),
        ensures
            final(self).wf(),
            r is Ok,
            exists|now: int|
                0 <= now <= i64::MAX && final(self)@ == #[trigger] old(self)@.sweep(
                    max_age_seconds as int,
                    now,
                ) && r->Ok_0 == old(self)@.swept(max_age_seconds as int, now),
    {
        let now = unix_millis();
        self.cleanup_operations_at(max_age_seconds, now)
    }

    /// Answers a status query now. See
    /// [`StatusCache::get_cached_status_at`].
    pub fn get_cached_status(&mut self, repo_path: &str, ttl_ms: u64) -> (r: Result<
        StatusLookup,
        CoreError,
    >)
        requires
            old(self).wf(),
        ensures
            final(self).wf(),
            r is Ok <==> old(self)@.can_resolve(repo_path@),
            match r {
                Ok(lookup) => exists|now: int|
                    0 <= now <= i64::MAX && final(self)@ == #[trigger] old(self)@.resolve(repo_path@, now)
                        && lookup.answers(
                        final(self)@,
                        old(self)@.resolved_id(repo_path@),
                        ttl_ms as int,
                        now,
                    ),
                Err(e) => e == CoreError::Storage && final(self)@ == old(self)@,
            },
    {
        let now = unix_millis();
        self.get_cached_status_at(repo_path, ttl_ms, now)
    }

    /// Caches a scan that was made now. See
    /// [`StatusCache::cache_status_at`].
    pub fn cache_status(&mut self, repo_id: i64, entries: &[FileStatusEntry]) -> (r: Result<
        Vec<FileStatusEntry>,
        CoreError,
    >)
        requires
            old(self).wf(),
        ensures
            final(self).wf(),
            exists|now: int|
                0 <= now <= i64::MAX && final(self)@ == #[trigger] old(self)@.store_scan(
                    repo_id as int,
                    entry_views(entries@),
                    now,
                ),
            match r {
                Ok(stored) => old(self)@.has_repo(repo_id as int) && entry_views(stored@)
                    == distinct_last(entry_views(entries@)),
                Err(e) => !old(self)@.has_repo(repo_id as int) && e == CoreError::NotFound,
            },
    {
        let now = unix_millis();
        self.cache_status_at(repo_id, entries, now)
    }

    /// Brings a status query to its end at time `now`, given the answer of
    /// the cache and, where the cache asked for a scan, what the engine
    /// reported: the scan, or nothing where the engine failed. An answer from
    /// the cache is handed on. A scan is cached and handed on as it is
    /// cached. A failed scan is an error and leaves the cache as it is, so
    /// that a failure never looks like a repository without changes.
    pub fn complete_status_at(
        &mut self,
        lookup: StatusLookup,
        scan: Option<Vec<FileStatusEntry>>,
        now: i64,
    ) -> (r: Result<Vec<FileStatusEntry>, CoreError>)
        requires
            old(self).wf(),
        ensures
            final(self).wf(),
            match lookup {
                StatusLookup::Fresh(entries) => r == Ok::<Vec<FileStatusEntry>, CoreError>(
                    entries,
                ) && final(self)@ == old(self)@,
                StatusLookup::Rescan { repo_id } => match scan {
                    Some(scanned) => final(self)@ == old(self)@.store_scan(
                        repo_id as int,
                        entry_views(scanned@),
                        now as int,
                    ) && match r {
                        Ok(stored) => old(self)@.has_repo(repo_id as int) && entry_views(stored@)
                            == distinct_last(entry_views(scanned@)),
                        Err(e) => !old(self)@.has_repo(repo_id as int) && e
                            == CoreError::NotFound,
                    },
                    None => r == Err::<Vec<FileStatusEntry>, CoreError>(CoreError::Engine)
                        && final(self)@ == old(self)@,
                },
            },
    {
        match lookup {
            StatusLookup::Fresh(entries) => Ok(entries),
            StatusLookup::Rescan { repo_id } => match scan {
                Some(scanned) => self.cache_status_at(repo_id, scanned.as_slice(), now),
                None => Err(CoreError::Engine),
            },
        }
    }

    /// Brings a status query to its end now. See
    /// [`StatusCache::complete_status_at`].
    pub fn complete_status(&mut self, lookup: StatusLookup, scan: Option<Vec<FileStatusEntry>>) -> (r:
        Result<Vec<FileStatusEntry>, CoreError>)
        requires
            old(self).wf(),
        ensures
            final(self).wf(),
            match lookup {
                StatusLookup::Fresh(entries) => r == Ok::<Vec<FileStatusEntry>, CoreError>(
                    entries,
                ) && final(self)@ == old(self)@,
                StatusLookup::Rescan { repo_id } => match scan {
                    Some(scanned) => (exists|now: int|
                        0 <= now <= i64::MAX && final(self)@ == #[trigger] old(self)@.store_scan(
                            repo_id as int,
                            entry_views(scanned@),
                            now,
                        )) && match r {
                        Ok(stored) => old(self)@.has_repo(repo_id as int) && entry_views(stored@)
                            == distinct_last(entry_views(scanned@)),
                        Err(e) => !old(self)@.has_repo(repo_id as int) && e
                            == CoreError::NotFound,
                    },
                    None => r == Err::<Vec<FileStatusEntry>, CoreError>(CoreError::Engine)
                        && final(self)@ == old(self)@,
                },
            },
    {
        let now = unix_millis();
        self.complete_status_at(lookup, scan, now)
    }
}

} // verus!
