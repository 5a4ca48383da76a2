use gitscribe_core::temp_ignore::{
    IncludeCondition, TempIgnoreConfig, TempIgnoreManager, TempIgnoreSettings, TemporaryIgnore,
};
use std::time::{SystemTime, UNIX_EPOCH};

#[test]
fn test_add_temp_ignore() {
    let mut manager = TempIgnoreManager::empty();

    manager
        .add_temp_ignore(
            ".env.local".to_string(),
            Some("Contains test secrets".to_string()),
            IncludeCondition::Manual,
            vec!["secrets".to_string()],
            "unknown".to_string(),
        )
        .unwrap();

    assert!(manager.is_temp_ignored(".env.local"));
    assert_eq!(manager.all_ignores().len(), 1);
}

#[test]
fn test_include_file() {
    let mut manager = TempIgnoreManager::empty();

    manager
        .add_temp_ignore(
            "test.txt".to_string(),
            None,
            IncludeCondition::Manual,
            vec![],
            "unknown".to_string(),
        )
        .unwrap();

    assert!(manager.is_temp_ignored("test.txt"));

    manager.include_file("test.txt").unwrap();
    assert!(!manager.is_temp_ignored("test.txt"));
}

#[test]
fn test_expiry() {
    let mut manager = TempIgnoreManager::empty();

    // Add file that expired 1 day ago
    let yesterday = SystemTime::now()
        .duration_since(UNIX_EPOCH)
        .unwrap()
        .as_secs()
        - 86400;

    manager
        .add_temp_ignore(
            "expired.txt".to_string(),
            None,
            IncludeCondition::AfterDate(yesterday),
            vec![],
            "unknown".to_string(),
        )
        .unwrap();

    let expired = manager.process_expired().unwrap();
    assert_eq!(expired.len(), 1);
    assert_eq!(expired[0], "expired.txt");
    assert!(!manager.is_temp_ignored("expired.txt"));
}

fn ignore(path: &str, when: IncludeCondition, added: u64, tags: &[&str]) -> TemporaryIgnore {
    TemporaryIgnore {
        path: path.to_string(),
        reason: None,
        include_when: when,
        added_by: "me".to_string(),
        added_date: added,
        tags: tags.iter().map(|t| t.to_string()).collect(),
    }
}

fn paths(found: Vec<&TemporaryIgnore>) -> Vec<String> {
    found.iter().map(|g| g.path.clone()).collect()
}

#[test]
fn default_settings() {
    let settings = TempIgnoreSettings::default();
    assert!(settings.auto_expire);
    assert_eq!(settings.warn_before_expire_days, 3);
    assert_eq!(settings.suggest_review_after_days, 30);
    assert_eq!(TempIgnoreManager::empty().settings(), settings);
}

#[test]
fn an_ignore_of_a_known_path_replaces_the_old_one() {
    let mut manager = TempIgnoreManager::empty();
    manager
        .add_temp_ignore_at("a".to_string(), None, IncludeCondition::Manual, vec![], "x".to_string(), 1)
        .unwrap();
    manager
        .add_temp_ignore_at("b".to_string(), None, IncludeCondition::Manual, vec![], "x".to_string(), 2)
        .unwrap();
    manager
        .add_temp_ignore_at(
            "a".to_string(),
            Some("again".to_string()),
            IncludeCondition::AfterDate(9),
            vec![],
            "y".to_string(),
            3,
        )
        .unwrap();
    let all = manager.all_ignores();
    assert_eq!(paths(all), vec!["b".to_string(), "a".to_string()]);
    let a = &manager.ignores()[1];
    assert_eq!(a.added_by, "y");
    assert_eq!(a.added_date, 3);
    assert_eq!(a.reason.as_deref(), Some("again"));
    manager.include_file("missing").unwrap();
    assert_eq!(manager.ignores().len(), 2);
}

#[test]
fn loading_keeps_the_last_ignore_of_each_path() {
    let manager = TempIgnoreManager::from_config(TempIgnoreConfig {
        version: "1.0.0".to_string(),
        ignores: vec![
            ignore("a", IncludeCondition::Manual, 1, &[]),
            ignore("b", IncludeCondition::Manual, 2, &[]),
            ignore("a", IncludeCondition::Manual, 3, &[]),
        ],
        settings: TempIgnoreSettings {
            auto_expire: false,
            warn_before_expire_days: 1,
            suggest_review_after_days: 2,
        },
    });
    let dates: Vec<(String, u64)> = manager
        .ignores()
        .iter()
        .map(|g| (g.path.clone(), g.added_date))
        .collect();
    assert_eq!(dates, vec![("b".to_string(), 2), ("a".to_string(), 3)]);
    assert!(!manager.settings().auto_expire);
}

#[test]
fn expiring_ignores_lie_within_the_warning_period() {
    let now = 1_000_000;
    let day = 86400;
    let manager = TempIgnoreManager::from_config(TempIgnoreConfig {
        version: "1.0.0".to_string(),
        ignores: vec![
            ignore("past", IncludeCondition::AfterDate(now - 1), 0, &[]),
            ignore("now", IncludeCondition::AfterDate(now), 0, &[]),
            ignore("soon", IncludeCondition::AfterDate(now + 1), 0, &[]),
            ignore("edge", IncludeCondition::AfterDate(now + 3 * day), 0, &[]),
            ignore("late", IncludeCondition::AfterDate(now + 3 * day + 1), 0, &[]),
            ignore("manual", IncludeCondition::Manual, 0, &[]),
            ignore("cond", IncludeCondition::Condition("released".to_string()), 0, &[]),
        ],
        settings: TempIgnoreSettings::default(),
    });
    assert_eq!(
        paths(manager.get_expiring_ignores_at(now)),
        vec!["soon".to_string(), "edge".to_string()]
    );
    assert!(manager.get_expiring_ignores().is_empty());
}

#[test]
fn review_candidates_are_older_than_the_review_period() {
    let day = 86400;
    let now = 100 * day;
    let manager = TempIgnoreManager::from_config(TempIgnoreConfig {
        version: "1.0.0".to_string(),
        ignores: vec![
            ignore("old", IncludeCondition::Manual, now - 30 * day - 1, &[]),
            ignore("edge", IncludeCondition::Manual, now - 30 * day, &[]),
            ignore("new", IncludeCondition::Manual, now, &[]),
            ignore("future", IncludeCondition::Manual, now + 5, &[]),
        ],
        settings: TempIgnoreSettings::default(),
    });
    assert_eq!(paths(manager.get_review_candidates_at(now)), vec!["old".to_string()]);
    // Seen now, everything but what lies in the future is long overdue.
    assert_eq!(manager.get_review_candidates().len(), 4);
}

#[test]
fn ignores_are_found_by_tag() {
    let manager = TempIgnoreManager::from_config(TempIgnoreConfig {
        version: "1.0.0".to_string(),
        ignores: vec![
            ignore("a", IncludeCondition::Manual, 0, &["secrets", "local"]),
            ignore("b", IncludeCondition::Manual, 0, &["local"]),
            ignore("c", IncludeCondition::Manual, 0, &[]),
        ],
        settings: TempIgnoreSettings::default(),
    });
    assert_eq!(paths(manager.get_by_tag("local")), vec!["a".to_string(), "b".to_string()]);
    assert_eq!(paths(manager.get_by_tag("secrets")), vec!["a".to_string()]);
    assert!(manager.get_by_tag("none").is_empty());
}

#[test]
fn processing_removes_what_has_run_out() {
    let config = |auto_expire: bool| TempIgnoreConfig {
        version: "1.0.0".to_string(),
        ignores: vec![
            ignore("past", IncludeCondition::AfterDate(99), 0, &[]),
            ignore("manual", IncludeCondition::Manual, 0, &[]),
            ignore("now", IncludeCondition::AfterDate(100), 0, &[]),
            ignore("later", IncludeCondition::AfterDate(101), 0, &[]),
        ],
        settings: TempIgnoreSettings {
            auto_expire,
            warn_before_expire_days: 3,
            suggest_review_after_days: 30,
        },
    };
    let mut manager = TempIgnoreManager::from_config(config(true));
    assert_eq!(
        manager.process_expired_at(100).unwrap(),
        vec!["past".to_string(), "now".to_string()]
    );
    assert_eq!(
        paths(manager.all_ignores()),
        vec!["manual".to_string(), "later".to_string()]
    );
    assert!(manager.process_expired_at(100).unwrap().is_empty());

    let mut kept = TempIgnoreManager::from_config(config(false));
    assert!(kept.process_expired_at(1000).unwrap().is_empty());
    assert_eq!(kept.ignores().len(), 4);
}

#[test]
fn settings_are_replaced() {
    let mut manager = TempIgnoreManager::empty();
    let settings = TempIgnoreSettings {
        auto_expire: false,
        warn_before_expire_days: 7,
        suggest_review_after_days: 90,
    };
    manager.update_settings(settings).unwrap();
    assert_eq!(manager.settings(), settings);
}

fn manager_with(ignores: Vec<TemporaryIgnore>) -> TempIgnoreManager {
    TempIgnoreManager::from_config(TempIgnoreConfig {
        version: "1.0.0".to_string(),
        ignores,
        settings: TempIgnoreSettings::default(),
    })
}

const START: &str = "# === GITSCRIBE TEMPORARY IGNORES ===";
const END: &str = "# === END GITSCRIBE TEMPORARY IGNORES ===";

#[test]
fn exclude_file_gets_a_section_with_a_line_per_ignore() {
    let mut with_reason = ignore(".env.local", IncludeCondition::Manual, 0, &[]);
    with_reason.reason = Some("Contains test secrets".to_string());
    let mut dated = ignore("build/", IncludeCondition::AfterDate(1700000000), 0, &[]);
    dated.reason = Some("until release".to_string());
    let manager = manager_with(vec![
        with_reason,
        dated,
        ignore("notes.md", IncludeCondition::Condition("review done".to_string()), 0, &[]),
        ignore("plain.txt", IncludeCondition::Manual, 0, &[]),
        ignore("zero", IncludeCondition::AfterDate(0), 0, &[]),
    ]);
    let text = manager.update_exclude_file("*.log\ntarget/\n");
    let expected = [
        "*.log",
        "target/",
        "",
        START,
        ".env.local  # Temp: | Contains test secrets",
        "build/  # Temp: | until release | Expires: 1700000000",
        "notes.md  # Temp: | When: review done",
        "plain.txt  # Temp:",
        "zero  # Temp: | Expires: 0",
        END,
    ]
    .join("\n");
    assert_eq!(text, expected);
}

#[test]
fn exclude_file_loses_its_old_section() {
    let existing = format!("a\r\n{}\nold  # Temp:\n{}\nb", START, END);
    let none = manager_with(vec![]);
    assert_eq!(none.update_exclude_file(&existing), "a\nb");
    assert_eq!(none.update_exclude_file(""), "");
    assert_eq!(none.update_exclude_file("only\n"), "only");

    let one = manager_with(vec![ignore("x", IncludeCondition::Manual, 0, &[])]);
    assert_eq!(
        one.update_exclude_file(&existing),
        format!("a\nb\n\n{}\nx  # Temp:\n{}", START, END)
    );
    assert_eq!(
        one.update_exclude_file(""),
        format!("\n{}\nx  # Temp:\n{}", START, END)
    );
}

#[test]
fn exclude_file_with_markers_out_of_order_keeps_its_lines() {
    let none = manager_with(vec![]);
    let reversed = format!("{}\nmiddle\n{}\nend", END, START);
    assert_eq!(none.update_exclude_file(&reversed), reversed);
    let open = format!("a\n{}\nb", START);
    assert_eq!(none.update_exclude_file(&open), open);
    // A line that holds both markers is a section of its own.
    let both = format!("a\n{} {}\nb", START, END);
    assert_eq!(none.update_exclude_file(&both), "a\nb");
}
