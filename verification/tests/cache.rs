use gitscribe_core::cache::{
    check_schema_version, latest_per_path, FileStatusRow, QueuedOperation, RepoStatusRow,
    RepositoryRecord, StatusCache, StatusLookup, SCHEMA_VERSION,
};
use gitscribe_core::clock::unix_millis;
use gitscribe_core::error::CoreError;
use gitscribe_core::status::{FileStatus, FileStatusEntry};
use gitscribe_core::store::OperationStatus;

fn entry(path: &str, status: FileStatus) -> FileStatusEntry {
    FileStatusEntry {
        path: path.to_string(),
        status,
    }
}

fn pairs(entries: &[FileStatusEntry]) -> Vec<(String, FileStatus)> {
    entries.iter().map(|e| (e.path.clone(), e.status)).collect()
}

fn fresh(lookup: StatusLookup) -> Vec<(String, FileStatus)> {
    match lookup {
        StatusLookup::Fresh(entries) => pairs(&entries),
        StatusLookup::Rescan { repo_id } => panic!("scan asked for repository {}", repo_id),
    }
}

fn rescan(lookup: StatusLookup) -> i64 {
    match lookup {
        StatusLookup::Rescan { repo_id } => repo_id,
        StatusLookup::Fresh(entries) => panic!("served {} rows from the cache", entries.len()),
    }
}

#[test]
fn test_operation_queue() {
    let mut cache = StatusCache::in_memory().unwrap();

    // Queue an operation
    let op_id = cache
        .queue_operation("/test/repo", "commit", r#"{"message": "test commit"}"#)
        .unwrap();

    // Get pending operations
    let pending = cache.get_pending_operations("/test/repo").unwrap();
    assert_eq!(pending.len(), 1);
    assert_eq!(pending[0].0, op_id);
    assert_eq!(pending[0].1, "commit");

    // Mark as running
    cache
        .update_operation_status(op_id, OperationStatus::Running, None)
        .unwrap();

    // Mark as complete
    cache
        .update_operation_status(op_id, OperationStatus::Complete, None)
        .unwrap();

    // Should not appear in pending anymore
    let pending = cache.get_pending_operations("/test/repo").unwrap();
    assert_eq!(pending.len(), 0);
}

#[test]
fn test_repo_invalidation() {
    let mut cache = StatusCache::in_memory().unwrap();

    // This will create repo entries
    cache.queue_operation("/test/repo", "test", "{}").unwrap();

    // Invalidate should clear cache
    cache.invalidate_repo("/test/repo").unwrap();

    // Verify operations still exist (invalidate only clears status caches)
    let pending = cache.get_pending_operations("/test/repo").unwrap();
    assert_eq!(pending.len(), 1);
}

#[test]
fn test_cleanup_operations() {
    let mut cache = StatusCache::in_memory().unwrap();

    let op_id = cache.queue_operation_at("/test/repo", "test", "{}", 100).unwrap();
    cache
        .update_operation_status_at(op_id, OperationStatus::Complete, None, 100)
        .unwrap();

    // Cleanup operations older than 0 seconds (all completed), a second later
    let deleted = cache.cleanup_operations_at(0, 101).unwrap();
    assert_eq!(deleted, 1);
}

#[test]
fn enqueue_claim_mark_scenario() {
    let mut cache = StatusCache::in_memory().unwrap();
    let id = cache.queue_operation_at("repo1", "commit", "payload", 10).unwrap();
    assert_eq!(id, 1);
    assert_eq!(
        cache.get_pending_operations_at("repo1", 11).unwrap(),
        vec![(1, "commit".to_string(), "payload".to_string())]
    );
    cache
        .update_operation_status_at(1, OperationStatus::Running, None, 12)
        .unwrap();
    {
        let row = &cache.queued_operations()[0];
        assert_eq!(row.status, OperationStatus::Running);
        assert_eq!(row.started_at, Some(12));
        assert_eq!(row.completed_at, None);
    }
    cache
        .update_operation_status_at(1, OperationStatus::Complete, None, 13)
        .unwrap();
    {
        let row = &cache.queued_operations()[0];
        assert_eq!(row.status, OperationStatus::Complete);
        assert_eq!(row.started_at, Some(12));
        assert_eq!(row.completed_at, Some(13));
        assert_eq!(row.error_message, None);
        assert_eq!(row.created_at, 10);
    }
    assert!(cache.get_pending_operations_at("repo1", 14).unwrap().is_empty());
}

#[test]
fn lookup_creates_once_and_refreshes_last_accessed() {
    let mut cache = StatusCache::in_memory().unwrap();
    assert_eq!(cache.get_repo_id_at("/a", 5).unwrap(), 1);
    assert_eq!(cache.get_repo_id_at("/b", 6).unwrap(), 2);
    assert_eq!(cache.get_repo_id_at("/a", 7).unwrap(), 1);
    let rows = cache.repositories();
    assert_eq!(rows.len(), 2);
    assert_eq!(rows[0].path, "/a");
    assert_eq!(rows[0].last_accessed, 7);
    assert!(rows[0].is_valid);
    assert_eq!(rows[1].path, "/b");
    assert_eq!(rows[1].last_accessed, 6);
    assert_eq!(cache.last_repo_id(), 2);
}

#[test]
fn lookup_with_the_clock_registers_the_repository() {
    let mut cache = StatusCache::in_memory().unwrap();
    let id = cache.get_repo_id("/clock").unwrap();
    assert_eq!(id, 1);
    assert!(cache.repositories()[0].last_accessed > 1_600_000_000);
}

#[test]
fn pending_operations_come_in_creation_order_per_repository() {
    let mut cache = StatusCache::in_memory().unwrap();
    let a1 = cache.queue_operation_at("/a", "commit", "1", 10).unwrap();
    let b1 = cache.queue_operation_at("/b", "push", "2", 11).unwrap();
    let a2 = cache.queue_operation_at("/a", "merge", "3", 12).unwrap();
    let a3 = cache.queue_operation_at("/a", "pull", "4", 13).unwrap();
    cache
        .update_operation_status_at(a2, OperationStatus::Failed, Some("conflict"), 14)
        .unwrap();
    let pending = cache.get_pending_operations_at("/a", 15).unwrap();
    assert_eq!(
        pending,
        vec![
            (a1, "commit".to_string(), "1".to_string()),
            (a3, "pull".to_string(), "4".to_string())
        ]
    );
    assert_eq!(
        cache.get_pending_operations_at("/b", 15).unwrap(),
        vec![(b1, "push".to_string(), "2".to_string())]
    );
    let failed = &cache.queued_operations()[2];
    assert_eq!(failed.status, OperationStatus::Failed);
    assert_eq!(failed.error_message.as_deref(), Some("conflict"));
    assert_eq!(failed.completed_at, Some(14));
}

#[test]
fn claimed_operations_are_never_finished_or_running() {
    let mut cache = StatusCache::in_memory().unwrap();
    let statuses = [
        OperationStatus::Pending,
        OperationStatus::Running,
        OperationStatus::Complete,
        OperationStatus::Failed,
    ];
    let mut ids = Vec::new();
    for status in statuses {
        let id = cache.queue_operation_at("/r", "job", "{}", 1).unwrap();
        cache.update_operation_status_at(id, status, None, 2).unwrap();
        ids.push(id);
    }
    let pending = cache.get_pending_operations_at("/r", 3).unwrap();
    assert_eq!(pending.len(), 1);
    assert_eq!(pending[0].0, ids[0]);
}

#[test]
fn marking_pending_changes_nothing() {
    let mut cache = StatusCache::in_memory().unwrap();
    let id = cache.queue_operation_at("/r", "job", "{}", 1).unwrap();
    cache
        .update_operation_status_at(id, OperationStatus::Running, None, 2)
        .unwrap();
    cache
        .update_operation_status_at(id, OperationStatus::Pending, Some("ignored"), 3)
        .unwrap();
    let row = &cache.queued_operations()[0];
    assert_eq!(row.status, OperationStatus::Running);
    assert_eq!(row.started_at, Some(2));
    assert_eq!(row.error_message, None);
}

#[test]
fn marking_an_unknown_operation_is_not_found() {
    let mut cache = StatusCache::in_memory().unwrap();
    cache.queue_operation_at("/r", "job", "{}", 1).unwrap();
    assert_eq!(
        cache.update_operation_status_at(99, OperationStatus::Running, None, 2),
        Err(CoreError::NotFound)
    );
    assert_eq!(cache.queued_operations()[0].status, OperationStatus::Pending);
}

#[test]
fn zero_ttl_always_asks_for_a_scan() {
    let mut cache = StatusCache::in_memory().unwrap();
    let id = rescan(cache.get_cached_status_at("/r", 0, 100).unwrap());
    cache
        .cache_status_at(id, &[entry("a.txt", FileStatus::Modified)], 100)
        .unwrap();
    for now in [99, 100, 101, 102, 1000] {
        assert_eq!(rescan(cache.get_cached_status_at("/r", 0, now).unwrap()), id);
    }
    // With any time-to-live above zero the next reading finds the row fresh.
    assert_eq!(fresh(cache.get_cached_status_at("/r", 1, 101).unwrap()).len(), 1);
}

#[test]
fn the_window_starts_the_time_to_live_before_now_and_ends_just_before_now() {
    let mut cache = StatusCache::in_memory().unwrap();
    let id = rescan(cache.get_cached_status_at("/r", 500, 100_000).unwrap());
    let stored = cache
        .cache_status_at(id, &[entry("a.txt", FileStatus::Modified)], 100_000)
        .unwrap();
    // A row is fresh from the reading after the scan on.
    assert_eq!(fresh(cache.get_cached_status_at("/r", 500, 100_001).unwrap()), pairs(&stored));
    assert_eq!(fresh(cache.get_cached_status_at("/r", 500, 100_499).unwrap()), pairs(&stored));
    // A row that is exactly as old as the time-to-live is still fresh.
    assert_eq!(fresh(cache.get_cached_status_at("/r", 500, 100_500).unwrap()), pairs(&stored));
    assert_eq!(fresh(cache.get_cached_status_at("/r", 1000, 101_000).unwrap()), pairs(&stored));
    assert_eq!(fresh(cache.get_cached_status_at("/r", 1, 100_001).unwrap()), pairs(&stored));
    // One millisecond older it is not.
    assert_eq!(rescan(cache.get_cached_status_at("/r", 500, 100_501).unwrap()), id);
    assert_eq!(rescan(cache.get_cached_status_at("/r", 1, 100_002).unwrap()), id);
    // A row cached at this very reading, or after it, is not fresh.
    assert_eq!(rescan(cache.get_cached_status_at("/r", 500, 100_000).unwrap()), id);
    assert_eq!(rescan(cache.get_cached_status_at("/r", 500, 99_999).unwrap()), id);
}

#[test]
fn second_query_within_ttl_is_served_from_the_cache() {
    let mut cache = StatusCache::in_memory().unwrap();
    let id = rescan(cache.get_cached_status_at("/r", 5000, 100_000).unwrap());
    let stored = cache
        .cache_status_at(
            id,
            &[
                entry("a.txt", FileStatus::Modified),
                entry("b.txt", FileStatus::Untracked),
            ],
            100_000,
        )
        .unwrap();
    let first = pairs(&stored);
    assert_eq!(
        first,
        vec![
            ("a.txt".to_string(), FileStatus::Modified),
            ("b.txt".to_string(), FileStatus::Untracked)
        ]
    );
    // From the next reading on, up to five seconds later, the cache
    // answers.
    assert_eq!(fresh(cache.get_cached_status_at("/r", 5000, 100_001).unwrap()), first);
    assert_eq!(fresh(cache.get_cached_status_at("/r", 5000, 104_000).unwrap()), first);
    assert_eq!(fresh(cache.get_cached_status_at("/r", 5000, 105_000).unwrap()), first);
    // Later than that the rows have run out.
    assert_eq!(rescan(cache.get_cached_status_at("/r", 5000, 105_001).unwrap()), id);
    assert_eq!(rescan(cache.get_cached_status_at("/r", 5000, 106_000).unwrap()), id);
    // A longer time-to-live still covers them, a shorter one never did.
    assert_eq!(fresh(cache.get_cached_status_at("/r", 5001, 105_001).unwrap()), first);
    assert_eq!(rescan(cache.get_cached_status_at("/r", 4000, 104_001).unwrap()), id);
    // At the reading of the scan itself the rows are not fresh yet.
    assert_eq!(rescan(cache.get_cached_status_at("/r", 5000, 100_000).unwrap()), id);
    // The rows themselves are as they were cached.
    let rows = cache.file_rows();
    assert_eq!(rows.len(), 2);
    assert_eq!(rows[0].cache_time, 100_000);
    assert_eq!(rows[0].file_mtime, 100_000);
    assert_eq!(rows[0].index_status, FileStatus::Clean);
    assert_eq!(rows[0].work_tree_status, FileStatus::Modified);
    assert_eq!(rows[0].repo_id, id);
}

#[test]
fn a_clean_repository_is_scanned_on_every_query() {
    let mut cache = StatusCache::in_memory().unwrap();
    let id = rescan(cache.get_cached_status_at("/clean", 60_000, 100).unwrap());
    assert!(cache.cache_status_at(id, &[], 100).unwrap().is_empty());
    assert_eq!(rescan(cache.get_cached_status_at("/clean", 60_000, 101).unwrap()), id);
}

#[test]
fn freshness_is_per_repository_not_per_row() {
    let rows = vec![
        FileStatusRow {
            repo_id: 1,
            file_path: "old.txt".to_string(),
            work_tree_status: FileStatus::Deleted,
            index_status: FileStatus::Clean,
            cache_time: 10,
            file_mtime: 10,
        },
        FileStatusRow {
            repo_id: 1,
            file_path: "new.txt".to_string(),
            work_tree_status: FileStatus::Added,
            index_status: FileStatus::Clean,
            cache_time: 99,
            file_mtime: 99,
        },
    ];
    let repos = vec![RepositoryRecord {
        id: 1,
        path: "/r".to_string(),
        last_accessed: 0,
        is_valid: true,
    }];
    let mut cache = StatusCache::from_tables(repos, rows, vec![], vec![], 1, 0).unwrap();
    assert_eq!(
        fresh(cache.get_cached_status_at("/r", 50, 100).unwrap()),
        vec![
            ("old.txt".to_string(), FileStatus::Deleted),
            ("new.txt".to_string(), FileStatus::Added)
        ]
    );
    // A row that is exactly as old as the time-to-live keeps the cache fresh.
    assert_eq!(fresh(cache.get_cached_status_at("/r", 1, 100).unwrap()).len(), 2);
    assert_eq!(fresh(cache.get_cached_status_at("/r", 90, 100).unwrap()).len(), 2);
    // Once the youngest row has run out, nothing is fresh.
    assert_eq!(rescan(cache.get_cached_status_at("/r", 1, 101).unwrap()), 1);
}

#[test]
fn a_scan_replaces_the_rows_of_its_repository_wholesale() {
    let mut cache = StatusCache::in_memory().unwrap();
    let a = cache.get_repo_id_at("/a", 1).unwrap();
    let b = cache.get_repo_id_at("/b", 1).unwrap();
    cache
        .cache_status_at(a, &[entry("x", FileStatus::Modified), entry("y", FileStatus::Added)], 10)
        .unwrap();
    cache.cache_status_at(b, &[entry("x", FileStatus::Deleted)], 11).unwrap();
    let stored = cache
        .cache_status_at(a, &[entry("z", FileStatus::Conflicted)], 20)
        .unwrap();
    assert_eq!(pairs(&stored), vec![("z".to_string(), FileStatus::Conflicted)]);
    let rows: Vec<(i64, String, i64)> = cache
        .file_rows()
        .iter()
        .map(|r| (r.repo_id, r.file_path.clone(), r.cache_time))
        .collect();
    assert_eq!(
        rows,
        vec![(b, "x".to_string(), 11), (a, "z".to_string(), 20)]
    );
}

#[test]
fn of_two_entries_for_one_path_the_last_counts() {
    let stored = latest_per_path(&[
        entry("a", FileStatus::Modified),
        entry("b", FileStatus::Added),
        entry("a", FileStatus::Deleted),
        entry("c", FileStatus::Untracked),
        entry("b", FileStatus::Ignored),
    ]);
    assert_eq!(
        pairs(&stored),
        vec![
            ("a".to_string(), FileStatus::Deleted),
            ("c".to_string(), FileStatus::Untracked),
            ("b".to_string(), FileStatus::Ignored)
        ]
    );
}

#[test]
fn caching_a_scan_for_an_unknown_repository_is_not_found() {
    let mut cache = StatusCache::in_memory().unwrap();
    assert_eq!(
        cache
            .cache_status_at(7, &[entry("a", FileStatus::Modified)], 1)
            .map(|stored| stored.len()),
        Err(CoreError::NotFound)
    );
    assert!(cache.file_rows().is_empty());
}

#[test]
fn invalidate_clears_only_that_repository() {
    let repos = vec![
        RepositoryRecord {
            id: 1,
            path: "/a".to_string(),
            last_accessed: 0,
            is_valid: true,
        },
        RepositoryRecord {
            id: 2,
            path: "/b".to_string(),
            last_accessed: 0,
            is_valid: true,
        },
    ];
    let rollup = |repo_id: i64| RepoStatusRow {
        repo_id,
        current_branch: Some("main".to_string()),
        upstream_branch: None,
        ahead_count: 1,
        behind_count: 2,
        merge_head: None,
        rebase_head: None,
        cache_time: 5,
    };
    let mut cache =
        StatusCache::from_tables(repos, vec![], vec![rollup(1), rollup(2)], vec![], 2, 0).unwrap();
    cache.cache_status_at(1, &[entry("x", FileStatus::Modified)], 10).unwrap();
    cache.cache_status_at(2, &[entry("y", FileStatus::Added)], 10).unwrap();
    cache.queue_operation_at("/a", "commit", "{}", 10).unwrap();

    cache.invalidate_repo_at("/a", 11).unwrap();

    let rows: Vec<(i64, String)> = cache
        .file_rows()
        .iter()
        .map(|r| (r.repo_id, r.file_path.clone()))
        .collect();
    assert_eq!(rows, vec![(2, "y".to_string())]);
    let rollups: Vec<i64> = cache.rollup_rows().iter().map(|r| r.repo_id).collect();
    assert_eq!(rollups, vec![2]);
    assert_eq!(cache.queued_operations().len(), 1);
    assert_eq!(cache.repositories()[0].last_accessed, 11);
    assert_eq!(fresh(cache.get_cached_status_at("/b", 5000, 11).unwrap()).len(), 1);
    assert_eq!(rescan(cache.get_cached_status_at("/a", 5000, 12).unwrap()), 1);
}

#[test]
fn sweep_removes_finished_operations_older_than_max_age() {
    let mut cache = StatusCache::in_memory().unwrap();
    let done_old = cache.queue_operation_at("/r", "a", "{}", 1).unwrap();
    let failed_old = cache.queue_operation_at("/r", "b", "{}", 1).unwrap();
    let done_new = cache.queue_operation_at("/r", "c", "{}", 1).unwrap();
    let running = cache.queue_operation_at("/r", "d", "{}", 1).unwrap();
    let pending = cache.queue_operation_at("/r", "e", "{}", 1).unwrap();
    cache.update_operation_status_at(done_old, OperationStatus::Complete, None, 100_000).unwrap();
    cache.update_operation_status_at(failed_old, OperationStatus::Failed, Some("x"), 109_999).unwrap();
    cache.update_operation_status_at(done_new, OperationStatus::Complete, None, 110_000).unwrap();
    cache.update_operation_status_at(running, OperationStatus::Running, None, 50_000).unwrap();

    // 170 s after the epoch, with a greatest age of 60 s, what ended before
    // second 110 goes.
    assert_eq!(cache.cleanup_operations_at(60, 170_000), Ok(2));
    let left: Vec<i64> = cache.queued_operations().iter().map(|q| q.id).collect();
    assert_eq!(left, vec![done_new, running, pending]);
    // What ended exactly max_age ago stays.
    assert_eq!(cache.cleanup_operations_at(60, 170_000), Ok(0));
    assert_eq!(cache.cleanup_operations_at(60, 170_001), Ok(1));
    // Identifiers are not handed out again.
    assert_eq!(cache.queue_operation_at("/r", "f", "{}", 200_000), Ok(6));
}

#[test]
fn sweep_with_the_clock_leaves_unfinished_operations() {
    let mut cache = StatusCache::in_memory().unwrap();
    cache.queue_operation("/r", "a", "{}").unwrap();
    assert_eq!(cache.cleanup_operations(0), Ok(0));
    assert_eq!(cache.queued_operations().len(), 1);
}

#[test]
fn status_query_with_the_clock_round_trip() {
    let mut cache = StatusCache::in_memory().unwrap();
    let lookup = cache.get_cached_status("/r", 0).unwrap();
    let id = rescan(lookup);
    let stored = cache.cache_status(id, &[entry("a", FileStatus::Modified)]).unwrap();
    assert_eq!(stored.len(), 1);
    assert!(cache.file_rows()[0].cache_time > 1_600_000_000);
    // At a later reading within the minute the cache answers.
    let cached_at = cache.file_rows()[0].cache_time;
    while unix_millis() <= cached_at {}
    assert_eq!(fresh(cache.get_cached_status("/r", 60_000).unwrap()), pairs(&stored));
    assert_eq!(rescan(cache.get_cached_status("/r", 0).unwrap()), id);
}

#[test]
fn tables_round_trip() {
    let mut cache = StatusCache::in_memory().unwrap();
    let id = cache.get_repo_id_at("/a", 1).unwrap();
    cache.cache_status_at(id, &[entry("x", FileStatus::Locked)], 2).unwrap();
    cache.queue_operation_at("/a", "commit", "{}", 3).unwrap();
    let reloaded = StatusCache::from_tables(
        cache.repositories().to_vec(),
        cache.file_rows().to_vec(),
        cache.rollup_rows().to_vec(),
        cache.queued_operations().to_vec(),
        cache.last_repo_id(),
        cache.last_operation_id(),
    )
    .unwrap();
    assert_eq!(reloaded.repositories().len(), 1);
    assert_eq!(reloaded.file_rows()[0].work_tree_status, FileStatus::Locked);
    assert_eq!(reloaded.queued_operations()[0].operation_type, "commit");
    assert_eq!(reloaded.last_operation_id(), 1);
}

fn repo(id: i64, path: &str) -> RepositoryRecord {
    RepositoryRecord {
        id,
        path: path.to_string(),
        last_accessed: 0,
        is_valid: true,
    }
}

fn file_row(repo_id: i64, path: &str) -> FileStatusRow {
    FileStatusRow {
        repo_id,
        file_path: path.to_string(),
        work_tree_status: FileStatus::Modified,
        index_status: FileStatus::Clean,
        cache_time: 0,
        file_mtime: 0,
    }
}

fn queued(id: i64) -> QueuedOperation {
    QueuedOperation {
        id,
        repo_id: 1,
        operation_type: "t".to_string(),
        operation_data: "d".to_string(),
        status: OperationStatus::Pending,
        created_at: 0,
        started_at: None,
        completed_at: None,
        error_message: None,
    }
}

fn load(
    repos: Vec<RepositoryRecord>,
    files: Vec<FileStatusRow>,
    queue: Vec<QueuedOperation>,
    last_repo: i64,
    last_op: i64,
) -> Result<usize, CoreError> {
    StatusCache::from_tables(repos, files, vec![], queue, last_repo, last_op)
        .map(|cache| cache.repositories().len())
}

#[test]
fn corrupt_tables_are_a_storage_error() {
    assert_eq!(load(vec![repo(1, "/a"), repo(2, "/b")], vec![], vec![], 2, 0), Ok(2));
    // A path twice.
    assert_eq!(
        load(vec![repo(1, "/a"), repo(2, "/a")], vec![], vec![], 2, 0),
        Err(CoreError::Storage)
    );
    // Identifiers out of order, and beyond the counter.
    assert_eq!(
        load(vec![repo(2, "/a"), repo(1, "/b")], vec![], vec![], 2, 0),
        Err(CoreError::Storage)
    );
    assert_eq!(load(vec![repo(3, "/a")], vec![], vec![], 2, 0), Err(CoreError::Storage));
    assert_eq!(load(vec![repo(0, "/a")], vec![], vec![], 2, 0), Err(CoreError::Storage));
    // A file twice for one repository.
    assert_eq!(
        load(vec![repo(1, "/a")], vec![file_row(1, "x"), file_row(1, "x")], vec![], 1, 0),
        Err(CoreError::Storage)
    );
    assert_eq!(
        load(vec![repo(1, "/a")], vec![file_row(1, "x"), file_row(2, "x")], vec![], 1, 0),
        Ok(1)
    );
    // Operation identifiers out of order, and negative counters.
    assert_eq!(
        load(vec![], vec![], vec![queued(2), queued(1)], 0, 2),
        Err(CoreError::Storage)
    );
    assert_eq!(load(vec![], vec![], vec![queued(1), queued(2)], 0, 2), Ok(0));
    assert_eq!(load(vec![], vec![], vec![], -1, 0), Err(CoreError::Storage));
    assert_eq!(load(vec![], vec![], vec![], 0, -1), Err(CoreError::Storage));
    // Two rollups for one repository.
    let rollup = || RepoStatusRow {
        repo_id: 1,
        current_branch: None,
        upstream_branch: None,
        ahead_count: 0,
        behind_count: 0,
        merge_head: None,
        rebase_head: None,
        cache_time: 0,
    };
    assert_eq!(
        StatusCache::from_tables(vec![], vec![], vec![rollup(), rollup()], vec![], 0, 0)
            .map(|cache| cache.rollup_rows().len()),
        Err(CoreError::Storage)
    );
}

#[test]
fn exhausted_identifiers_are_a_storage_error_and_change_nothing() {
    let mut cache =
        StatusCache::from_tables(vec![repo(i64::MAX, "/a")], vec![], vec![], vec![], i64::MAX, 0)
            .unwrap();
    assert_eq!(cache.get_repo_id_at("/a", 1), Ok(i64::MAX));
    assert_eq!(cache.get_repo_id_at("/b", 2), Err(CoreError::Storage));
    assert_eq!(cache.queue_operation_at("/b", "t", "d", 2), Err(CoreError::Storage));
    assert_eq!(cache.invalidate_repo_at("/b", 2), Err(CoreError::Storage));
    assert_eq!(
        cache.get_pending_operations_at("/b", 2).map(|p| p.len()),
        Err(CoreError::Storage)
    );
    assert!(cache.get_cached_status_at("/b", 1000, 2).is_err());
    assert_eq!(cache.repositories().len(), 1);
    assert_eq!(cache.repositories()[0].last_accessed, 1);

    let mut full =
        StatusCache::from_tables(vec![repo(1, "/a")], vec![], vec![], vec![], 1, i64::MAX).unwrap();
    assert_eq!(full.queue_operation_at("/a", "t", "d", 5), Err(CoreError::Storage));
    assert_eq!(full.repositories()[0].last_accessed, 0);
    assert!(full.queued_operations().is_empty());
}

#[test]
fn status_codes_are_a_closed_set() {
    let all = [
        (0, FileStatus::Clean),
        (1, FileStatus::Modified),
        (2, FileStatus::Added),
        (3, FileStatus::Deleted),
        (4, FileStatus::Ignored),
        (5, FileStatus::Conflicted),
        (6, FileStatus::Untracked),
        (7, FileStatus::Locked),
    ];
    for (code, status) in all {
        assert_eq!(FileStatus::from_code(code), Some(status));
        assert_eq!(status.code(), code);
    }
    assert_eq!(FileStatus::from_code(8), None);
    assert_eq!(FileStatus::from_code(-1), None);
    assert_eq!(FileStatus::from_code(i32::MAX), None);

    let states = [
        (0, OperationStatus::Pending),
        (1, OperationStatus::Running),
        (2, OperationStatus::Complete),
        (3, OperationStatus::Failed),
    ];
    for (code, state) in states {
        assert_eq!(OperationStatus::from_code(code), Some(state));
        assert_eq!(state.code(), code);
    }
    assert_eq!(OperationStatus::from_code(4), None);
    assert_eq!(OperationStatus::from_code(-1), None);
}

#[test]
fn a_failed_scan_is_an_engine_error_and_caches_nothing() {
    let mut cache = StatusCache::in_memory().unwrap();
    let lookup = cache.get_cached_status_at("/r", 1000, 100).unwrap();
    assert_eq!(
        cache.complete_status_at(lookup, None, 100).map(|rows| rows.len()),
        Err(CoreError::Engine)
    );
    assert!(cache.file_rows().is_empty());

    let lookup = cache.get_cached_status_at("/r", 1000, 100).unwrap();
    let stored = cache
        .complete_status_at(lookup, Some(vec![entry("a", FileStatus::Modified)]), 100)
        .unwrap();
    assert_eq!(pairs(&stored), vec![("a".to_string(), FileStatus::Modified)]);

    // At the next reading the cache answers, and the answer is handed on
    // as it is.
    let lookup = cache.get_cached_status_at("/r", 1000, 101).unwrap();
    let served = cache.complete_status_at(lookup, None, 101).unwrap();
    assert_eq!(pairs(&served), vec![("a".to_string(), FileStatus::Modified)]);
    assert_eq!(cache.file_rows()[0].cache_time, 100);

    let lookup = cache.get_cached_status("/other", 0).unwrap();
    assert_eq!(cache.complete_status(lookup, Some(vec![])).map(|rows| rows.len()), Ok(0));
}

#[test]
fn a_store_of_another_layout_is_a_storage_error() {
    assert_eq!(check_schema_version(0), Ok(()));
    assert_eq!(check_schema_version(SCHEMA_VERSION), Ok(()));
    assert_eq!(check_schema_version(1), Ok(()));
    assert_eq!(check_schema_version(2), Err(CoreError::Storage));
    assert_eq!(check_schema_version(-1), Err(CoreError::Storage));
}
