use gitscribe_core::bindings::{
    count_i32, count_u32, init_gitscribe, FileStatusJS, GSRepoInfo, RemoteStatusJS, RepoStatusJS,
};
use gitscribe_core::history::{
    commit_matches, found_by_query, head_label, next_page_step, Branch, Commit, Delta, FileChange,
    PageStep, Signature,
};
use gitscribe_core::repository::{
    branch_reference, current_branch, plan_pull, pull_merge_message, refspec_for_push, EngineState,
    PullAction, RemoteStatus, RepoState,
};
use gitscribe_core::status::{
    components_of, convert_status, count_conflicted, count_modified, directory_status, is_clean,
    scanned_status, FileStatus, FileStatusEntry, ScannedFile, StatusFlags,
};

const NONE: StatusFlags = StatusFlags {
    conflicted: false,
    wt_modified: false,
    index_modified: false,
    wt_new: false,
    index_new: false,
    wt_deleted: false,
    index_deleted: false,
    ignored: false,
};

fn entry(path: &str, status: FileStatus) -> FileStatusEntry {
    FileStatusEntry {
        path: path.to_string(),
        status,
    }
}

#[test]
fn flags_are_classified_in_priority_order() {
    assert_eq!(convert_status(NONE), FileStatus::Clean);
    assert_eq!(convert_status(StatusFlags { ignored: true, ..NONE }), FileStatus::Ignored);
    assert_eq!(convert_status(StatusFlags { wt_deleted: true, ignored: true, ..NONE }), FileStatus::Deleted);
    assert_eq!(convert_status(StatusFlags { index_deleted: true, ..NONE }), FileStatus::Deleted);
    assert_eq!(convert_status(StatusFlags { wt_new: true, wt_deleted: true, ..NONE }), FileStatus::Untracked);
    assert_eq!(convert_status(StatusFlags { index_new: true, ..NONE }), FileStatus::Added);
    assert_eq!(convert_status(StatusFlags { index_new: true, wt_new: true, ..NONE }), FileStatus::Added);
    assert_eq!(convert_status(StatusFlags { wt_modified: true, index_new: true, ..NONE }), FileStatus::Modified);
    assert_eq!(convert_status(StatusFlags { index_modified: true, ..NONE }), FileStatus::Modified);
    assert_eq!(
        convert_status(StatusFlags {
            conflicted: true,
            wt_modified: true,
            index_new: true,
            ignored: true,
            ..NONE
        }),
        FileStatus::Conflicted
    );
}

#[test]
fn a_scan_leaves_out_files_without_a_path() {
    let entries = scanned_status(vec![
        ScannedFile { path: Some("a.txt".to_string()), flags: StatusFlags { wt_new: true, ..NONE } },
        ScannedFile { path: None, flags: StatusFlags { wt_modified: true, ..NONE } },
        ScannedFile { path: Some("b.txt".to_string()), flags: StatusFlags { wt_modified: true, ..NONE } },
    ]);
    let got: Vec<(String, FileStatus)> = entries.into_iter().map(|e| (e.path, e.status)).collect();
    assert_eq!(
        got,
        vec![
            ("a.txt".to_string(), FileStatus::Untracked),
            ("b.txt".to_string(), FileStatus::Modified)
        ]
    );
    assert!(scanned_status(vec![]).is_empty());
}

#[test]
fn paths_fall_into_components() {
    let text = |parts: Vec<Vec<char>>| -> Vec<String> {
        parts.into_iter().map(|p| p.into_iter().collect()).collect()
    };
    assert_eq!(text(components_of("src/lib.rs")), vec!["src", "lib.rs"]);
    assert_eq!(text(components_of("/src//lib.rs/")), vec!["src", "lib.rs"]);
    assert!(components_of("").is_empty());
    assert!(components_of("///").is_empty());
}

#[test]
fn a_directory_is_modified_when_it_holds_a_change() {
    let entries = vec![
        entry("src/lib.rs", FileStatus::Modified),
        entry("docs/guide.md", FileStatus::Ignored),
        entry("docs/api/index.md", FileStatus::Clean),
        entry("srcs/other.rs", FileStatus::Untracked),
    ];
    assert_eq!(directory_status(&entries, "src"), FileStatus::Modified);
    assert_eq!(directory_status(&entries, "src/"), FileStatus::Modified);
    assert_eq!(directory_status(&entries, "src/lib.rs"), FileStatus::Modified);
    assert_eq!(directory_status(&entries, "sr"), FileStatus::Clean);
    assert_eq!(directory_status(&entries, "docs"), FileStatus::Clean);
    assert_eq!(directory_status(&entries, "docs/api"), FileStatus::Clean);
    assert_eq!(directory_status(&entries, "srcs"), FileStatus::Modified);
    assert_eq!(directory_status(&entries, ""), FileStatus::Modified);
    assert_eq!(directory_status(&entries, "missing"), FileStatus::Clean);
    assert_eq!(directory_status(&[], ""), FileStatus::Clean);
}

#[test]
fn counts_of_modified_and_conflicted_files() {
    let entries = vec![
        entry("a", FileStatus::Modified),
        entry("b", FileStatus::Added),
        entry("c", FileStatus::Deleted),
        entry("d", FileStatus::Conflicted),
        entry("e", FileStatus::Untracked),
        entry("f", FileStatus::Conflicted),
        entry("g", FileStatus::Clean),
    ];
    assert_eq!(count_modified(&entries), 3);
    assert_eq!(count_conflicted(&entries), 2);
    assert!(!is_clean(&entries));
    assert!(is_clean(&[entry("e", FileStatus::Untracked), entry("d", FileStatus::Conflicted)]));
    assert!(is_clean(&[]));
}

#[test]
fn engine_states_map_to_repository_states() {
    let cases = [
        (EngineState::Clean, RepoState::Clean, 0),
        (EngineState::Merge, RepoState::Merging, 1),
        (EngineState::Rebase, RepoState::Rebasing, 2),
        (EngineState::RebaseInteractive, RepoState::Rebasing, 2),
        (EngineState::RebaseMerge, RepoState::Rebasing, 2),
        (EngineState::CherryPick, RepoState::CherryPicking, 3),
        (EngineState::CherryPickSequence, RepoState::CherryPicking, 3),
        (EngineState::Revert, RepoState::Reverting, 4),
        (EngineState::RevertSequence, RepoState::Reverting, 4),
        (EngineState::Bisect, RepoState::Bisecting, 5),
        (EngineState::ApplyMailbox, RepoState::Clean, 0),
        (EngineState::ApplyMailboxOrRebase, RepoState::Clean, 0),
    ];
    for (engine, state, code) in cases {
        assert_eq!(RepoState::from_engine(engine), state);
        assert_eq!(state.code(), code);
    }
}

#[test]
fn upstream_names_split_into_remote_and_branch() {
    let status = RemoteStatus::from_upstream(2, 3, Some("origin/main"));
    assert_eq!((status.ahead, status.behind), (2, 3));
    assert_eq!((status.remote_name.as_str(), status.remote_branch.as_str()), ("origin", "main"));
    let status = RemoteStatus::from_upstream(0, 0, Some("fork/feature/x"));
    assert_eq!((status.remote_name.as_str(), status.remote_branch.as_str()), ("fork", "feature"));
    let status = RemoteStatus::from_upstream(0, 0, Some("upstream"));
    assert_eq!((status.remote_name.as_str(), status.remote_branch.as_str()), ("upstream", "main"));
    let status = RemoteStatus::from_upstream(0, 0, None);
    assert_eq!((status.remote_name.as_str(), status.remote_branch.as_str()), ("origin", "main"));
    let status = RemoteStatus::from_upstream(0, 0, Some("/x"));
    assert_eq!((status.remote_name.as_str(), status.remote_branch.as_str()), ("", "x"));
}

#[test]
fn branch_names_and_references() {
    assert_eq!(current_branch(true, Some("main")), "main");
    assert_eq!(current_branch(false, Some("main")), "HEAD");
    assert_eq!(current_branch(true, None), "HEAD");
    assert_eq!(branch_reference("dev"), "refs/heads/dev");
    assert_eq!(refspec_for_push(None, "dev"), "refs/heads/dev:refs/heads/dev");
    assert_eq!(refspec_for_push(Some("a:b"), "dev"), "a:b");
    assert_eq!(pull_merge_message("main", "origin"), "Merge branch 'main' of origin");
    assert_eq!(head_label(Some("topic".to_string())), "topic");
    assert_eq!(head_label(None), "HEAD");
}

#[test]
fn a_pull_is_planned_from_the_analysis() {
    assert_eq!(plan_pull(true, false), PullAction::Nothing);
    assert_eq!(plan_pull(true, true), PullAction::Nothing);
    assert_eq!(plan_pull(false, true), PullAction::FastForward);
    assert_eq!(plan_pull(false, false), PullAction::Merge);
}

fn signature(name: Option<&str>, email: Option<&str>, seconds: i64) -> Signature {
    Signature {
        name: name.map(|s| s.to_string()),
        email: email.map(|s| s.to_string()),
        seconds,
    }
}

#[test]
fn commits_are_shown_with_short_identifier_and_defaults() {
    let commit = Commit::from_parts(
        "0123456789abcdef".to_string(),
        Some("Subject\n\nBody".to_string()),
        None,
        signature(Some("Ada"), None, 77),
        signature(None, Some("bot@example.com"), 99),
        vec!["p1".to_string()],
    );
    assert_eq!(commit.oid, "0123456789abcdef");
    assert_eq!(commit.short_oid, "0123456");
    assert_eq!(commit.message, "Subject\n\nBody");
    assert_eq!(commit.summary, "");
    assert_eq!(commit.author_name, "Ada");
    assert_eq!(commit.author_email, "");
    assert_eq!(commit.committer_name, "");
    assert_eq!(commit.committer_email, "bot@example.com");
    assert_eq!(commit.timestamp, 77);
    assert_eq!(commit.parent_oids, vec!["p1".to_string()]);

    let short = Commit::from_parts(
        "abc".to_string(),
        None,
        None,
        signature(None, None, 0),
        signature(None, None, 0),
        vec![],
    );
    assert_eq!(short.short_oid, "abc");
    let seven = Commit::from_parts(
        "1234567".to_string(),
        None,
        None,
        signature(None, None, 0),
        signature(None, None, 0),
        vec![],
    );
    assert_eq!(seven.short_oid, "1234567");
}

#[test]
fn only_local_branches_show_an_upstream() {
    let local = Branch::from_parts(
        "main".to_string(),
        true,
        false,
        Some("origin/main".to_string()),
        Some("abc".to_string()),
    );
    assert_eq!(local.upstream.as_deref(), Some("origin/main"));
    assert!(local.is_head && !local.is_remote);
    assert_eq!(local.target_oid.as_deref(), Some("abc"));
    let remote = Branch::from_parts(
        "origin/main".to_string(),
        false,
        true,
        Some("x".to_string()),
        None,
    );
    assert_eq!(remote.upstream, None);
    assert!(remote.is_remote);
}

#[test]
fn changes_are_labelled_and_only_renames_show_the_old_path() {
    let labels = [
        (Delta::Added, "added"),
        (Delta::Deleted, "deleted"),
        (Delta::Modified, "modified"),
        (Delta::Renamed, "renamed"),
        (Delta::Copied, "unknown"),
        (Delta::Unmodified, "unknown"),
        (Delta::Typechange, "unknown"),
        (Delta::Conflicted, "unknown"),
    ];
    for (delta, label) in labels {
        let change = FileChange::of_delta(delta, Some("new".to_string()), Some("old".to_string()));
        assert_eq!(change.status, label);
        assert_eq!(change.path, "new");
        assert_eq!(
            change.old_path.as_deref(),
            if delta == Delta::Renamed { Some("old") } else { None }
        );
        assert_eq!((change.insertions, change.deletions), (0, 0));
    }
    assert_eq!(FileChange::of_delta(Delta::Added, None, None).path, "");
}

#[test]
fn pages_skip_then_take_then_stop() {
    assert_eq!(next_page_step(0, 0, 2, 3), PageStep::Skip);
    assert_eq!(next_page_step(1, 0, 2, 3), PageStep::Skip);
    assert_eq!(next_page_step(2, 0, 2, 3), PageStep::Take);
    assert_eq!(next_page_step(4, 2, 2, 3), PageStep::Take);
    assert_eq!(next_page_step(5, 3, 2, 3), PageStep::Stop);
    assert_eq!(next_page_step(0, 0, 0, 0), PageStep::Stop);
    assert_eq!(next_page_step(0, 0, 1, 0), PageStep::Skip);
}

#[test]
fn commits_are_found_by_identifier_message_or_author() {
    assert!(commit_matches("abc123", "fix bug", "ada", "abc"));
    assert!(!commit_matches("abc123", "fix bug", "ada", "bc1"));
    assert!(commit_matches("abc123", "fix bug", "ada", "x b"));
    assert!(commit_matches("abc123", "fix bug", "ada lovelace", "love"));
    assert!(!commit_matches("abc123", "fix bug", "ada", "feature"));
    assert!(commit_matches("abc123", "fix bug", "ada", ""));
    assert!(!commit_matches("", "", "", "a"));

    // The query, the message and the author are compared in lower case.
    assert!(found_by_query("abc123", "Fix BUG", "Ada", "bug"));
    assert!(found_by_query("abc123", "fix bug", "Ada Lovelace", "LOVE"));
    assert!(found_by_query("abc123", "fix", "ada", "ABC"));
    assert!(!found_by_query("ABC123", "fix", "ada", "ABC"));
    assert!(found_by_query("x", "GROSSE STRASSE", "ada", "straße".to_uppercase().as_str()));
}

#[test]
fn counts_are_capped_at_the_integer_range() {
    assert_eq!(count_i32(0), 0);
    assert_eq!(count_i32(2_147_483_647), i32::MAX);
    assert_eq!(count_i32(2_147_483_648), i32::MAX);
    assert_eq!(count_u32(4_294_967_295), u32::MAX);
    assert_eq!(count_u32(4_294_967_296), u32::MAX);
    assert_eq!(count_u32(7), 7);
}

#[test]
fn status_at_a_glance() {
    let summary = RepoStatusJS::get_status(
        vec![entry("a", FileStatus::Modified), entry("b", FileStatus::Locked)],
        Some("main".to_string()),
        Some(RemoteStatus::from_upstream(2, 5, Some("origin/main"))),
        RepoState::Rebasing,
        Some(1),
        None,
    );
    let files: Vec<(String, i32)> = summary.files.iter().map(|f| (f.path.clone(), f.status)).collect();
    assert_eq!(files, vec![("a".to_string(), 1), ("b".to_string(), 7)]);
    assert_eq!(summary.current_branch, "main");
    assert_eq!((summary.ahead_count, summary.behind_count), (2, 5));
    assert_eq!(summary.state, 2);
    assert_eq!((summary.modified_count, summary.conflicted_count), (1, 0));

    let bare = RepoStatusJS::get_status(vec![], None, None, RepoState::Clean, None, Some(3));
    assert!(bare.files.is_empty());
    assert_eq!(bare.current_branch, "HEAD");
    assert_eq!((bare.ahead_count, bare.behind_count), (0, 0));
    assert_eq!((bare.modified_count, bare.conflicted_count), (0, 3));

    let file = FileStatusJS::from_entry(entry("x", FileStatus::Untracked));
    assert_eq!((file.path.as_str(), file.status), ("x", 6));
    let remote = RemoteStatusJS::from_status(RemoteStatus::from_upstream(1, 4, Some("o/b")));
    assert_eq!((remote.ahead, remote.behind), (1, 4));
    assert_eq!((remote.remote_name.as_str(), remote.remote_branch.as_str()), ("o", "b"));
}

#[test]
fn repository_info_for_the_shell() {
    let blank = GSRepoInfo::default();
    assert_eq!(
        blank,
        GSRepoInfo {
            state: 0,
            is_clean: 1,
            modified_count: 0,
            conflicted_count: 0,
            ahead_count: 0,
            behind_count: 0
        }
    );
    let info = GSRepoInfo::gs_repository_info(
        RepoState::Merging,
        Some(4),
        Some(1),
        Some(false),
        Some(RemoteStatus::from_upstream(3, 0, None)),
    );
    assert_eq!(
        info,
        GSRepoInfo {
            state: 1,
            is_clean: 0,
            modified_count: 4,
            conflicted_count: 1,
            ahead_count: 3,
            behind_count: 0
        }
    );
    let unknown = GSRepoInfo::gs_repository_info(RepoState::Clean, None, None, None, None);
    assert_eq!(unknown.is_clean, 0);
    assert_eq!(unknown.modified_count, 0);
    let clean = GSRepoInfo::gs_repository_info(RepoState::Clean, Some(0), Some(0), Some(true), None);
    assert_eq!(clean.is_clean, 1);
    assert_eq!(init_gitscribe(), "GitScribe Core v0.1.0");
}

fn engine_flags(status: git2::Status) -> StatusFlags {
    StatusFlags {
        conflicted: status.is_conflicted(),
        wt_modified: status.is_wt_modified(),
        index_modified: status.is_index_modified(),
        wt_new: status.is_wt_new(),
        index_new: status.is_index_new(),
        wt_deleted: status.is_wt_deleted(),
        index_deleted: status.is_index_deleted(),
        ignored: status.is_ignored(),
    }
}

#[test]
fn test_empty_repository() {
    let temp_dir = tempfile::TempDir::new().unwrap();
    let repo = git2::Repository::init(temp_dir.path()).unwrap();

    let mut opts = git2::StatusOptions::new();
    opts.include_untracked(true)
        .include_ignored(false)
        .recurse_untracked_dirs(true);
    let scan: Vec<ScannedFile> = repo
        .statuses(Some(&mut opts))
        .unwrap()
        .iter()
        .map(|entry| ScannedFile {
            path: entry.path().ok().map(String::from),
            flags: engine_flags(entry.status()),
        })
        .collect();
    let status = scanned_status(scan);

    // Empty repo should have no files
    assert_eq!(status.len(), 0);
    assert_eq!(RepoState::from_engine(EngineState::Clean), RepoState::Clean);
    assert_eq!(repo.state(), git2::RepositoryState::Clean);
}

#[test]
fn engine_flags_of_single_conditions() {
    assert_eq!(convert_status(engine_flags(git2::Status::CURRENT)), FileStatus::Clean);
    assert_eq!(convert_status(engine_flags(git2::Status::WT_NEW)), FileStatus::Untracked);
    assert_eq!(convert_status(engine_flags(git2::Status::INDEX_NEW)), FileStatus::Added);
    assert_eq!(convert_status(engine_flags(git2::Status::WT_MODIFIED)), FileStatus::Modified);
    assert_eq!(convert_status(engine_flags(git2::Status::INDEX_DELETED)), FileStatus::Deleted);
    assert_eq!(convert_status(engine_flags(git2::Status::IGNORED)), FileStatus::Ignored);
    assert_eq!(
        convert_status(engine_flags(git2::Status::CONFLICTED | git2::Status::WT_MODIFIED)),
        FileStatus::Conflicted
    );
}
