use gitscribe_core::error::CoreError;
use gitscribe_core::stash::{
    BranchContext, CommitInfo, FileStatus, StashedFile, VisualStash, VisualStashManager,
};

fn file(path: &str, content: &str) -> StashedFile {
    StashedFile {
        path: path.to_string(),
        patch: format!("diff --git a/{}...", path),
        original_content: content.to_string(),
        status: FileStatus::Modified,
        size: content.len() as u64,
        last_modified: 1,
    }
}

fn context(branch: &str) -> BranchContext {
    BranchContext {
        branch_name: branch.to_string(),
        base_commit: "base".to_string(),
        head_commit: "head".to_string(),
        ahead_count: 1,
        behind_count: 0,
        upstream_branch: Some(format!("origin/{}", branch)),
        unpushed_commits: vec![CommitInfo {
            sha: "abc".to_string(),
            message: "wip".to_string(),
            author: "me".to_string(),
            timestamp: 5,
        }],
        staged_files: vec!["a.txt".to_string()],
        unstaged_files: vec![],
    }
}

#[test]
fn test_create_stash() {
    let mut manager = VisualStashManager::from_stashes(vec![]);

    let stash_id = manager.create_stash(
        "Test Stash".to_string(),
        Some("#FF5733".to_string()),
        vec!["test".to_string()],
    );

    assert!(manager.get_stash(&stash_id).is_some());
    let stash = manager.get_stash(&stash_id).unwrap();
    assert_eq!(stash.name, "Test Stash");
    assert_eq!(stash.color, Some("#FF5733".to_string()));
    assert_eq!(stash.tags, vec!["test".to_string()]);
}

#[test]
fn test_add_file_to_stash() {
    let mut manager = VisualStashManager::from_stashes(vec![]);
    let stash_id = manager.create_stash("Test".to_string(), None, vec![]);

    manager
        .add_file_to_stash(
            &stash_id,
            StashedFile {
                path: "test.txt".to_string(),
                patch: "diff --git a/test.txt...".to_string(),
                original_content: "test content".to_string(),
                status: FileStatus::Modified,
                size: 12,
                last_modified: 1,
            },
        )
        .unwrap();

    let stash = manager.get_stash(&stash_id).unwrap();
    assert_eq!(stash.files.len(), 1);
    assert_eq!(stash.files[0].path, "test.txt");
}

#[test]
fn test_persistence() {
    let (stash_id, saved) = {
        let mut manager = VisualStashManager::from_stashes(vec![]);
        let id = manager.create_stash("Persistent".to_string(), None, vec![]);
        (id, manager.stashes().to_vec())
    };

    // A new manager over what was saved holds the stash.
    let manager2 = VisualStashManager::from_stashes(saved);
    assert!(manager2.get_stash(&stash_id).is_some());
}

#[test]
fn new_stash_is_empty_and_stamped() {
    let stash = VisualStash::new("n".to_string());
    assert_eq!(stash.id.len(), 36);
    assert_eq!(stash.created, stash.modified);
    assert!(stash.created > 1_600_000_000);
    assert!(stash.files.is_empty());
    assert!(stash.tags.is_empty());
    assert!(!stash.is_branch_stash());

    let fixed = VisualStash::with_identity("id-1".to_string(), "n".to_string(), 42);
    assert_eq!(fixed.id, "id-1");
    assert_eq!((fixed.created, fixed.modified), (42, 42));
    assert!(fixed.color.is_none() && fixed.description.is_none());
}

#[test]
fn branch_stash_carries_context_and_tag() {
    let stash = VisualStash::new_branch_stash("b".to_string(), context("feature"));
    assert!(stash.is_branch_stash());
    assert_eq!(stash.tags, vec!["branch".to_string()]);
    assert_eq!(stash.branch_context.unwrap().branch_name, "feature");
}

#[test]
fn files_are_added_and_the_first_match_is_removed() {
    let mut stash = VisualStash::with_identity("s".to_string(), "n".to_string(), 1);
    stash.add_file_at(file("a", "1"), 2);
    stash.add_file_at(file("b", "2"), 3);
    stash.add_file_at(file("a", "3"), 4);
    assert_eq!(stash.modified, 4);
    let removed = stash.remove_file_at("a", 9).unwrap();
    assert_eq!(removed.original_content, "1");
    assert_eq!(stash.modified, 9);
    let left: Vec<&str> = stash.files.iter().map(|f| f.original_content.as_str()).collect();
    assert_eq!(left, vec!["2", "3"]);
    assert!(stash.remove_file_at("zzz", 10).is_none());
    assert_eq!(stash.modified, 9);

    stash.add_file(file("c", "4"));
    assert!(stash.modified > 1_600_000_000);
    assert!(stash.remove_file("c").is_some());
    stash.update_modified();
    assert!(stash.modified > 1_600_000_000);
    stash.update_modified_at(77);
    assert_eq!(stash.modified, 77);
    assert_eq!(stash.created, 1);
}

#[test]
fn a_stash_with_a_known_identifier_replaces_the_old_one() {
    let mut manager = VisualStashManager::from_stashes(vec![]);
    manager.create_stash_with("x".to_string(), "first".to_string(), None, vec![], 1);
    manager.create_stash_with("y".to_string(), "other".to_string(), None, vec![], 2);
    manager.create_stash_with("x".to_string(), "second".to_string(), None, vec![], 3);
    let names: Vec<&str> = manager.stashes().iter().map(|s| s.name.as_str()).collect();
    assert_eq!(names, vec!["other", "second"]);

    let loaded = VisualStashManager::from_stashes(vec![
        VisualStash::with_identity("a".to_string(), "1".to_string(), 1),
        VisualStash::with_identity("a".to_string(), "2".to_string(), 1),
    ]);
    assert_eq!(loaded.stashes().len(), 1);
    assert_eq!(loaded.get_stash("a").unwrap().name, "2");
}

#[test]
fn missing_stashes_and_files_are_not_found() {
    let mut manager = VisualStashManager::from_stashes(vec![]);
    manager.create_stash_with("x".to_string(), "n".to_string(), None, vec![], 1);
    assert!(manager.get_stash("nope").is_none());
    assert_eq!(manager.delete_stash("nope").map(|s| s.id), Err(CoreError::NotFound));
    assert_eq!(manager.rename_stash_at("nope", "m".to_string(), 2), Err(CoreError::NotFound));
    assert_eq!(manager.rename_stash("nope", "m".to_string()), Err(CoreError::NotFound));
    assert_eq!(
        manager.add_file_to_stash_at("nope", file("a", "1"), 2),
        Err(CoreError::NotFound)
    );
    assert_eq!(
        manager.remove_file_from_stash_at("nope", "a", 2).map(|f| f.path),
        Err(CoreError::NotFound)
    );
    assert_eq!(
        manager.remove_file_from_stash_at("x", "a", 2).map(|f| f.path),
        Err(CoreError::NotFound)
    );
    assert_eq!(manager.apply_file("x", "a"), Err(CoreError::NotFound));
    assert_eq!(manager.apply_file("nope", "a"), Err(CoreError::NotFound));
    assert_eq!(manager.apply_stash("nope"), Err(CoreError::NotFound));
    assert_eq!(manager.pop_stash("nope"), Err(CoreError::NotFound));
    assert_eq!(manager.get_stash("x").unwrap().modified, 1);
    assert_eq!(manager.stashes().len(), 1);
}

#[test]
fn apply_pop_rename_and_remove() {
    let mut manager = VisualStashManager::from_stashes(vec![]);
    manager.create_stash_with("x".to_string(), "n".to_string(), None, vec![], 1);
    manager.add_file_to_stash_at("x", file("a", "one"), 2).unwrap();
    manager.add_file_to_stash_at("x", file("b", "two"), 3).unwrap();
    assert_eq!(manager.get_stash("x").unwrap().modified, 3);
    assert_eq!(manager.apply_file("x", "b"), Ok("two".to_string()));
    assert_eq!(
        manager.apply_stash("x"),
        Ok(vec![
            ("a".to_string(), "one".to_string()),
            ("b".to_string(), "two".to_string())
        ])
    );
    manager.rename_stash_at("x", "renamed".to_string(), 7).unwrap();
    assert_eq!(manager.get_stash("x").unwrap().name, "renamed");
    assert_eq!(manager.get_stash("x").unwrap().modified, 7);
    let removed = manager.remove_file_from_stash_at("x", "a", 8).unwrap();
    assert_eq!(removed.original_content, "one");
    assert_eq!(manager.get_stash("x").unwrap().modified, 8);
    assert_eq!(
        manager.pop_stash("x"),
        Ok(vec![("b".to_string(), "two".to_string())])
    );
    assert!(manager.get_stash("x").is_none());
    assert!(manager.stashes().is_empty());

    manager.create_stash_with("y".to_string(), "n".to_string(), None, vec![], 1);
    manager.add_file_to_stash_at("y", file("a", "1"), 2).unwrap();
    manager.rename_stash("y", "later".to_string()).unwrap();
    assert!(manager.get_stash("y").unwrap().modified > 1_600_000_000);
    assert!(manager.remove_file_from_stash("y", "a").is_ok());
    assert_eq!(manager.delete_stash("y").map(|s| s.name), Ok("later".to_string()));
}

#[test]
fn all_stashes_come_latest_first() {
    let mut manager = VisualStashManager::from_stashes(vec![]);
    manager.create_stash_with("a".to_string(), "a".to_string(), None, vec![], 5);
    manager.create_stash_with("b".to_string(), "b".to_string(), None, vec![], 9);
    manager.create_stash_with("c".to_string(), "c".to_string(), None, vec![], 1);
    manager.create_stash_with("d".to_string(), "d".to_string(), None, vec![], 9);
    let order: Vec<&str> = manager.all_stashes().iter().map(|s| s.id.as_str()).collect();
    assert_eq!(order, vec!["b", "d", "a", "c"]);
}

#[test]
fn stashes_are_found_by_tag_and_by_kind() {
    let mut manager = VisualStashManager::from_stashes(vec![]);
    manager.create_stash_with(
        "a".to_string(),
        "a".to_string(),
        None,
        vec!["wip".to_string(), "ui".to_string()],
        1,
    );
    manager.create_stash_with("b".to_string(), "b".to_string(), None, vec!["ui".to_string()], 2);
    let id = manager.stash_current_branch_with(
        "c".to_string(),
        "feature".to_string(),
        context("feature"),
        vec![file("f", "content")],
        3,
    );
    assert_eq!(id, "c");
    let ui: Vec<&str> = manager.get_stashes_by_tag("ui").iter().map(|s| s.id.as_str()).collect();
    assert_eq!(ui, vec!["a", "b"]);
    let branch: Vec<&str> = manager
        .get_stashes_by_tag("branch")
        .iter()
        .map(|s| s.id.as_str())
        .collect();
    assert_eq!(branch, vec!["c"]);
    assert!(manager.get_stashes_by_tag("none").is_empty());
    let kinds: Vec<&str> = manager.get_branch_stashes().iter().map(|s| s.id.as_str()).collect();
    assert_eq!(kinds, vec!["c"]);

    let stash = manager.get_stash("c").unwrap();
    assert_eq!(stash.name, "Branch: feature");
    assert_eq!(stash.color.as_deref(), Some("#4A90E2"));
    assert_eq!(stash.files.len(), 1);
    assert_eq!((stash.created, stash.modified), (3, 3));
}

#[test]
fn branch_stashes_are_restored_with_their_context() {
    let mut manager = VisualStashManager::from_stashes(vec![]);
    manager.create_stash_with("plain".to_string(), "p".to_string(), None, vec![], 1);
    let id = manager.stash_current_branch(
        "feature".to_string(),
        context("feature"),
        vec![file("f", "content")],
    );
    assert_eq!(id.len(), 36);
    let (files, ctx) = manager.restore_branch_stash(&id).unwrap();
    assert_eq!(files, vec![("f".to_string(), "content".to_string())]);
    assert_eq!(ctx.branch_name, "feature");
    assert_eq!(ctx.unpushed_commits.len(), 1);
    assert_eq!(
        manager.restore_branch_stash("plain").map(|r| r.0),
        Err("Not a branch stash".to_string())
    );
    assert_eq!(
        manager.restore_branch_stash("nope").map(|r| r.0),
        Err("Stash not found".to_string())
    );
}

#[test]
fn stash_and_switch_names_the_target() {
    let mut manager = VisualStashManager::from_stashes(vec![]);
    let (id, target) = manager
        .stash_and_switch("main".to_string(), "dev".to_string(), context("main"), vec![])
        .unwrap();
    assert_eq!(target, "dev");
    assert_eq!(manager.get_stash(&id).unwrap().name, "Branch: main");
    let (id2, target2) = manager
        .stash_and_switch_with(
            "fixed".to_string(),
            "dev".to_string(),
            "main".to_string(),
            context("dev"),
            vec![],
            4,
        )
        .unwrap();
    assert_eq!((id2.as_str(), target2.as_str()), ("fixed", "main"));
    assert_eq!(manager.get_stash("fixed").unwrap().created, 4);
}

#[test]
fn a_stash_is_exported_as_a_patch_file() {
    let mut manager = VisualStashManager::from_stashes(vec![]);
    manager.create_stash_with("x".to_string(), "Work".to_string(), None, vec![], 1234567890);
    assert_eq!(
        manager.export_stash("x"),
        Ok("# GitScribe Stash: Work\n# Created: 1234567890\n# Files: 0\n\n".to_string())
    );
    manager.add_file_to_stash_at("x", file("a.txt", "one"), 5).unwrap();
    manager.add_file_to_stash_at("x", file("b.txt", "two"), 6).unwrap();
    assert_eq!(
        manager.export_stash("x"),
        Ok(concat_lines(&[
            "# GitScribe Stash: Work",
            "# Created: 1234567890",
            "# Files: 2",
            "",
            "# File: a.txt",
            "diff --git a/a.txt...",
            "",
            "# File: b.txt",
            "diff --git a/b.txt...",
            "",
            "",
        ]))
    );
    assert_eq!(manager.export_stash("nope"), Err(CoreError::NotFound));
}

fn concat_lines(lines: &[&str]) -> String {
    lines.join("\n")
}
