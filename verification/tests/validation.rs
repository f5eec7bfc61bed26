use beads_rust::error::{BeadsError, ValidationError};
use beads_rust::model::{Comment, Dependency, DependencyType, Issue, Priority, Status};
use beads_rust::validation::{
    is_valid_id_format, CommentValidator, DependencyStore, DependencyValidator, IssueValidator,
    LabelValidator, SyncSafetyValidator,
};
use chrono::{TimeZone, Utc};
use std::path::PathBuf;

fn micros(y: i32, m: u32, d: u32) -> i64 {
    Utc.with_ymd_and_hms(y, m, d, 0, 0, 0).unwrap().timestamp_micros()
}

fn base_issue() -> Issue {
    Issue {
        id: "bd-abc123".to_string(),
        title: "Test issue".to_string(),
        description: None,
        status: Status::Open,
        priority: Priority::medium(),
        estimated_minutes: None,
        created_at: micros(2026, 1, 1),
        updated_at: micros(2026, 1, 1),
        closed_at: None,
        external_ref: None,
    }
}

fn fields(errors: &[ValidationError]) -> Vec<&str> {
    errors.iter().map(|e| e.field.as_str()).collect()
}

#[test]
fn issue_validation_rejects_empty_title() {
    let mut issue = base_issue();
    issue.title = " ".to_string();

    let errors = IssueValidator::validate(&issue).unwrap_err();
    assert!(errors.iter().any(|err| err.field == "title"));
}

#[test]
fn issue_validation_rejects_invalid_id() {
    let mut issue = base_issue();
    issue.id = "invalid".to_string();

    let errors = IssueValidator::validate(&issue).unwrap_err();
    assert!(errors.iter().any(|err| err.field == "id"));
}

#[test]
fn issue_validation_rejects_priority_out_of_range() {
    let mut issue = base_issue();
    issue.priority = Priority(9);

    let errors = IssueValidator::validate(&issue).unwrap_err();
    assert!(errors.iter().any(|err| err.field == "priority"));
}

#[test]
fn issue_validation_rejects_large_description() {
    let mut issue = base_issue();
    issue.description = Some("x".repeat(102_401));

    let errors = IssueValidator::validate(&issue).unwrap_err();
    assert!(errors.iter().any(|err| err.field == "description"));
}

#[test]
fn issue_validation_rejects_closed_without_closed_at() {
    let mut issue = base_issue();
    issue.status = Status::Closed;

    let errors = IssueValidator::validate(&issue).unwrap_err();
    assert!(errors.iter().any(|err| err.field == "closed_at"));
}

#[test]
fn issue_validation_rejects_non_terminal_closed_at() {
    let mut issue = base_issue();
    issue.closed_at = Some(issue.updated_at);

    let errors = IssueValidator::validate(&issue).unwrap_err();
    assert!(errors.iter().any(|err| err.field == "closed_at"));
}

#[test]
fn issue_validation_allows_tombstone_without_closed_at() {
    let mut issue = base_issue();
    issue.status = Status::Tombstone;

    assert!(IssueValidator::validate(&issue).is_ok());
}

#[test]
fn issue_validation_collects_multiple_errors() {
    let mut issue = base_issue();
    issue.id = String::new();
    issue.title = String::new();
    issue.priority = Priority(9);
    issue.updated_at = micros(2025, 12, 31);

    let errors = IssueValidator::validate(&issue).unwrap_err();
    let fields: Vec<_> = errors.iter().map(|err| err.field.as_str()).collect();
    assert!(fields.contains(&"id"));
    assert!(fields.contains(&"title"));
    assert!(fields.contains(&"priority"));
    assert!(fields.contains(&"updated_at"));
}

#[test]
fn issue_validation_rejects_external_ref_whitespace() {
    let mut issue = base_issue();
    issue.external_ref = Some("gh 12".to_string());

    let errors = IssueValidator::validate(&issue).unwrap_err();
    assert!(errors.iter().any(|err| err.field == "external_ref"));
}

#[test]
fn issue_validation_accepts_base_issue() {
    assert!(IssueValidator::validate(&base_issue()).is_ok());
}

#[test]
fn issue_validation_reports_findings_in_rule_order() {
    let mut issue = base_issue();
    issue.id = String::new();
    issue.title = String::new();
    issue.priority = Priority(9);
    issue.updated_at = micros(2025, 12, 31);

    let errors = IssueValidator::validate(&issue).unwrap_err();
    assert_eq!(fields(&errors), vec!["id", "title", "priority", "updated_at"]);
    assert_eq!(errors[0].message, "cannot be empty");
    assert_eq!(errors[2].message, "must be 0-4");
    assert_eq!(errors[3].message, "cannot be before created_at");
}

#[test]
fn issue_validation_id_limits_and_messages() {
    let mut issue = base_issue();
    issue.id = format!("bd-{}", "a".repeat(98));
    let errors = IssueValidator::validate(&issue).unwrap_err();
    assert_eq!(fields(&errors), vec!["id", "id"]);
    assert_eq!(errors[0].message, "exceeds 100 characters");
    assert_eq!(errors[1].message, "invalid format (expected prefix-hash)");

    issue.id = "   ".to_string();
    let errors = IssueValidator::validate(&issue).unwrap_err();
    assert_eq!(errors[0].message, "cannot be empty");
    assert_eq!(errors[1].message, "invalid format (expected prefix-hash)");
}

#[test]
fn issue_validation_title_byte_limit() {
    let mut issue = base_issue();
    issue.title = "x".repeat(500);
    assert!(IssueValidator::validate(&issue).is_ok());
    issue.title = "x".repeat(501);
    let errors = IssueValidator::validate(&issue).unwrap_err();
    assert_eq!(errors[0].message, "exceeds 500 characters");
    // 250 two-byte characters are 500 bytes; one more is over.
    issue.title = "é".repeat(250);
    assert!(IssueValidator::validate(&issue).is_ok());
    issue.title = "é".repeat(251);
    assert!(IssueValidator::validate(&issue).is_err());
}

#[test]
fn issue_validation_unicode_blank_title() {
    let mut issue = base_issue();
    issue.title = "\u{3000}\u{00a0}\t".to_string();
    let errors = IssueValidator::validate(&issue).unwrap_err();
    assert_eq!(fields(&errors), vec!["title"]);
}

#[test]
fn issue_validation_estimated_minutes_bounds() {
    let mut issue = base_issue();
    issue.estimated_minutes = Some(525_960);
    assert!(IssueValidator::validate(&issue).is_ok());
    issue.estimated_minutes = Some(525_961);
    let errors = IssueValidator::validate(&issue).unwrap_err();
    assert_eq!(errors[0].message, "exceeds maximum (525960 minutes / ~1 year)");
    issue.estimated_minutes = Some(-1);
    let errors = IssueValidator::validate(&issue).unwrap_err();
    assert_eq!(errors[0].message, "cannot be negative");
}

#[test]
fn issue_validation_closed_at_before_created_at() {
    let mut issue = base_issue();
    issue.status = Status::Closed;
    issue.closed_at = Some(micros(2025, 6, 1));
    let errors = IssueValidator::validate(&issue).unwrap_err();
    assert_eq!(fields(&errors), vec!["closed_at"]);
    assert_eq!(errors[0].message, "cannot be before created_at");
}

#[test]
fn issue_validation_all_statuses() {
    for status in [
        Status::Open,
        Status::InProgress,
        Status::Blocked,
        Status::Deferred,
        Status::Closed,
        Status::Tombstone,
        Status::Pinned,
    ] {
        let mut issue = base_issue();
        issue.status = status;
        if status == Status::Closed {
            issue.closed_at = Some(issue.updated_at);
        }
        assert!(IssueValidator::validate(&issue).is_ok(), "{status:?}");
    }
}

#[test]
fn issue_validation_long_external_ref() {
    let mut issue = base_issue();
    issue.external_ref = Some("x".repeat(201));
    let errors = IssueValidator::validate(&issue).unwrap_err();
    assert_eq!(errors[0].message, "exceeds 200 characters");
    issue.external_ref = Some("gh-12/x_y".to_string());
    assert!(IssueValidator::validate(&issue).is_ok());
}

#[test]
fn label_validation_rejects_invalid_characters() {
    let err = LabelValidator::validate("bad label").unwrap_err();
    assert_eq!(err.field, "label");
}

#[test]
fn label_validation_rejects_empty() {
    let err = LabelValidator::validate("").unwrap_err();
    assert_eq!(err.field, "label");
}

#[test]
fn label_validation_allows_namespaced_labels() {
    assert!(LabelValidator::validate("team:backend").is_ok());
}

#[test]
fn label_validation_messages_and_limits() {
    assert_eq!(LabelValidator::validate("").unwrap_err().message, "cannot be empty");
    assert!(LabelValidator::validate(&"x".repeat(128)).is_ok());
    assert_eq!(
        LabelValidator::validate(&"x".repeat(129)).unwrap_err().message,
        "exceeds 128 characters"
    );
    assert_eq!(
        LabelValidator::validate("héllo").unwrap_err().message,
        "invalid characters (only alphanumeric, hyphen, underscore, colon allowed)"
    );
    assert!(LabelValidator::validate("A-z_0:9").is_ok());
}

#[test]
fn comment_validation_rejects_empty_body() {
    let comment = Comment {
        id: 1,
        issue_id: "bd-abc123".to_string(),
        author: "tester".to_string(),
        body: " ".to_string(),
        created_at: micros(2026, 1, 1),
    };

    let errors = CommentValidator::validate(&comment).unwrap_err();
    assert!(errors.iter().any(|err| err.field == "content"));
}

#[test]
fn comment_validation_collects_all_rules() {
    let comment = Comment {
        id: 0,
        issue_id: String::new(),
        author: "a".repeat(201),
        body: "b".repeat(51_201),
        created_at: micros(2026, 1, 1),
    };
    let errors = CommentValidator::validate(&comment).unwrap_err();
    assert_eq!(fields(&errors), vec!["id", "issue_id", "content", "author"]);
    assert_eq!(errors[2].message, "exceeds 50KB");
    assert_eq!(errors[3].message, "exceeds 200 characters");

    let ok = Comment {
        id: 7,
        issue_id: "bd-1".to_string(),
        author: "me".to_string(),
        body: "fine".to_string(),
        created_at: 0,
    };
    assert!(CommentValidator::validate(&ok).is_ok());
}

struct FakeStore {
    issue_exists: bool,
    depends_on_exists: bool,
    dependency_exists: bool,
    would_cycle: bool,
}

impl DependencyStore for FakeStore {
    fn issue_exists(&self, id: &str) -> Result<bool, BeadsError> {
        Ok(match id {
            "issue" => self.issue_exists,
            _ => self.depends_on_exists,
        })
    }

    fn dependency_exists(&self, _issue_id: &str, _depends_on_id: &str) -> Result<bool, BeadsError> {
        Ok(self.dependency_exists)
    }

    fn would_create_cycle(&self, _issue_id: &str, _depends_on_id: &str) -> Result<bool, BeadsError> {
        Ok(self.would_cycle)
    }
}

struct FailingStore;

impl DependencyStore for FailingStore {
    fn issue_exists(&self, _id: &str) -> Result<bool, BeadsError> {
        Err(BeadsError::Database("disk gone".to_string()))
    }

    fn dependency_exists(&self, _issue_id: &str, _depends_on_id: &str) -> Result<bool, BeadsError> {
        Ok(false)
    }

    fn would_create_cycle(&self, _issue_id: &str, _depends_on_id: &str) -> Result<bool, BeadsError> {
        Ok(false)
    }
}

fn base_dependency() -> Dependency {
    Dependency {
        issue_id: "issue".to_string(),
        depends_on_id: "dep".to_string(),
        dep_type: DependencyType::Blocks,
        created_at: micros(2026, 1, 1),
    }
}

#[test]
fn dependency_validation_rejects_self_dependency() {
    let mut dep = base_dependency();
    dep.depends_on_id = "issue".to_string();
    let store = FakeStore {
        issue_exists: true,
        depends_on_exists: true,
        dependency_exists: false,
        would_cycle: false,
    };

    let err = DependencyValidator::validate(&dep, &store).unwrap_err();
    match err {
        BeadsError::Validation { field, .. } => assert_eq!(field, "depends_on_id"),
        _ => unreachable!("expected validation error"),
    }
}

#[test]
fn dependency_validation_rejects_missing_issue() {
    let dep = base_dependency();
    let store = FakeStore {
        issue_exists: false,
        depends_on_exists: false,
        dependency_exists: false,
        would_cycle: false,
    };

    let err = DependencyValidator::validate(&dep, &store).unwrap_err();
    match err {
        BeadsError::ValidationErrors { errors } => {
            assert!(errors.iter().any(|e| e.field == "issue_id"));
            assert!(errors.iter().any(|e| e.field == "depends_on_id"));
        }
        _ => unreachable!("expected validation errors"),
    }
}

#[test]
fn dependency_validation_rejects_cycle() {
    let dep = base_dependency();
    let store = FakeStore {
        issue_exists: true,
        depends_on_exists: true,
        dependency_exists: false,
        would_cycle: true,
    };

    let err = DependencyValidator::validate(&dep, &store).unwrap_err();
    match err {
        BeadsError::Validation { field, .. } => assert_eq!(field, "depends_on_id"),
        _ => unreachable!("expected validation error"),
    }
}

#[test]
fn dependency_validation_allows_non_blocking_cycle() {
    let mut dep = base_dependency();
    dep.dep_type = DependencyType::Related;
    let store = FakeStore {
        issue_exists: true,
        depends_on_exists: true,
        dependency_exists: false,
        would_cycle: true,
    };

    assert!(DependencyValidator::validate(&dep, &store).is_ok());
}

#[test]
fn dependency_validation_rejects_duplicate() {
    let dep = base_dependency();
    let store = FakeStore {
        issue_exists: true,
        depends_on_exists: true,
        dependency_exists: true,
        would_cycle: false,
    };

    let err = DependencyValidator::validate(&dep, &store).unwrap_err();
    match err {
        BeadsError::Validation { field, .. } => assert_eq!(field, "depends_on_id"),
        _ => unreachable!("expected validation error"),
    }
}

#[test]
fn dependency_validation_propagates_store_failure() {
    let err = DependencyValidator::validate(&base_dependency(), &FailingStore).unwrap_err();
    assert!(matches!(err, BeadsError::Database(msg) if msg == "disk gone"));
}

#[test]
fn dependency_verdict_messages() {
    let dep = base_dependency();
    assert!(DependencyValidator::verdict(&dep, true, true, false, false).is_ok());
    match DependencyValidator::verdict(&dep, true, true, true, true).unwrap_err() {
        BeadsError::ValidationErrors { errors } => {
            assert_eq!(errors.len(), 2);
            assert_eq!(errors[0].message, "would create dependency cycle");
            assert_eq!(errors[1].message, "dependency already exists");
        }
        other => panic!("unexpected {other:?}"),
    }
    match DependencyValidator::verdict(&dep, false, true, false, false).unwrap_err() {
        BeadsError::Validation { field, reason } => {
            assert_eq!(field, "issue_id");
            assert_eq!(reason, "issue not found");
        }
        other => panic!("unexpected {other:?}"),
    }
    let mut related = base_dependency();
    related.dep_type = DependencyType::Related;
    assert!(DependencyValidator::verdict(&related, true, true, true, false).is_ok());
}

#[test]
fn dependency_blocking_kinds() {
    assert!(DependencyType::Blocks.is_blocking());
    assert!(DependencyType::ParentChild.is_blocking());
    assert!(DependencyType::ConditionalBlocks.is_blocking());
    assert!(DependencyType::WaitsFor.is_blocking());
    assert!(!DependencyType::Related.is_blocking());
    assert!(!DependencyType::DiscoveredFrom.is_blocking());
}

#[test]
fn id_format_validation_accepts_classic_ids() {
    assert!(is_valid_id_format("bd-abc123"));
    assert!(is_valid_id_format("beads9-0a9"));
}

#[test]
fn id_format_validation_rejects_invalid_ids() {
    assert!(!is_valid_id_format("BD-abc123"));
    assert!(!is_valid_id_format("bd-ABC"));
    // 1 char hash is now allowed (min 1)
    assert!(is_valid_id_format("bd-1"));
    // 9 char hash is allowed (max 40 for hierarchical IDs)
    assert!(is_valid_id_format("bd-abc123456"));

    assert!(!is_valid_id_format("bd_abc"));
    assert!(!is_valid_id_format("bd-abc.def"));
    assert!(!is_valid_id_format("bd-abc.1a"));

    // 26 char hash is now valid (within max 40)
    assert!(is_valid_id_format("bd-abc12345678901234567890123456"));

    // Too long (41 chars) - exceeds max 40
    assert!(!is_valid_id_format(
        "bd-abc123456789012345678901234567890123456789"
    ));
}

#[test]
fn id_format_validation_accepts_long_hash() {
    // Fallback generates 12+ chars. Should be accepted.
    assert!(is_valid_id_format("bd-abc123456789"));
}

#[test]
fn id_format_validation_children_and_edges() {
    assert!(is_valid_id_format("bd-abc.1"));
    assert!(is_valid_id_format("bd-abc.1.22"));
    assert!(!is_valid_id_format("bd-abc."));
    assert!(!is_valid_id_format("bd-abc..1"));
    assert!(!is_valid_id_format("bd-.1"));
    assert!(!is_valid_id_format("-abc"));
    assert!(!is_valid_id_format("bd-"));
    assert!(!is_valid_id_format(""));
    assert!(!is_valid_id_format("my-app-abc"));
    assert!(is_valid_id_format(&format!("bd-{}", "a".repeat(40))));
    assert!(!is_valid_id_format(&format!("bd-{}", "a".repeat(41))));
}

#[test]
fn sync_safety_rejects_git_path_component() {
    // Direct .git directory
    let git_path = PathBuf::from("/project/.git/config");
    let result = SyncSafetyValidator::validate_no_git_path(git_path.to_str().unwrap());
    assert!(result.is_err());
    assert!(result.unwrap_err().message.contains(".git"));

    // .git as intermediate component
    let git_path2 = PathBuf::from("/project/.git/objects/pack");
    assert!(SyncSafetyValidator::validate_no_git_path(git_path2.to_str().unwrap()).is_err());
}

#[test]
fn sync_safety_allows_beads_path() {
    let beads_path = PathBuf::from("/project/.beads/issues.jsonl");
    let result = SyncSafetyValidator::validate_no_git_path(beads_path.to_str().unwrap());
    assert!(result.is_ok());
}

#[test]
fn sync_safety_allows_gitignore_file() {
    // .gitignore is NOT .git - should be allowed
    let gitignore_path = PathBuf::from("/project/.gitignore");
    let result = SyncSafetyValidator::validate_no_git_path(gitignore_path.to_str().unwrap());
    assert!(result.is_ok());
}

#[test]
fn sync_safety_rejects_git_in_string() {
    // Paths ending with .git
    let git_path = PathBuf::from("/project/.git");
    assert!(SyncSafetyValidator::validate_no_git_path(git_path.to_str().unwrap()).is_err());

    // Path with /.git/ in middle
    let git_path2 = PathBuf::from("/repo/.git/hooks/pre-commit");
    assert!(SyncSafetyValidator::validate_no_git_path(git_path2.to_str().unwrap()).is_err());
}

#[test]
fn sync_safety_git_forms() {
    assert!(SyncSafetyValidator::validate_no_git_path(".git").is_err());
    assert!(SyncSafetyValidator::validate_no_git_path(".git/config").is_err());
    assert!(SyncSafetyValidator::validate_no_git_path("a\\.git\\b").is_err());
    assert!(SyncSafetyValidator::validate_no_git_path("a\\.git").is_err());
    assert!(SyncSafetyValidator::validate_no_git_path("a/.github/x").is_ok());
    assert!(SyncSafetyValidator::validate_no_git_path("a/x.git/y").is_ok());
    assert_eq!(
        SyncSafetyValidator::validate_no_git_path("/p/.git").unwrap_err().message,
        "sync operations cannot access .git directory (safety invariant)"
    );
}

/// Creates `<temp>/.beads`.
fn beads_dir_in(temp: &tempfile::TempDir) -> tempfile::TempDir {
    tempfile::Builder::new()
        .prefix(".beads")
        .rand_bytes(0)
        .tempdir_in(temp.path())
        .unwrap()
}

#[test]
fn sync_safety_containment_rejects_escape() {
    let temp = tempfile::TempDir::new().unwrap();
    let beads = beads_dir_in(&temp);
    let beads_dir = beads.path().to_path_buf();

    // Path outside beads_dir
    let outside_path = temp.path().join("src/main.rs");
    let result = SyncSafetyValidator::validate_path_containment(
        outside_path.to_str().unwrap(),
        beads_dir.to_str().unwrap(),
        false,
    );
    assert!(result.is_err());
    assert!(result.unwrap_err().message.contains("outside allowed directory"));
}

#[test]
fn sync_safety_containment_allows_beads_subpath() {
    let temp = tempfile::TempDir::new().unwrap();
    let beads = beads_dir_in(&temp);
    let beads_dir = beads.path().to_path_buf();

    // Create the file so canonicalize works
    let jsonl = tempfile::Builder::new()
        .prefix("issues")
        .suffix(".jsonl")
        .rand_bytes(0)
        .tempfile_in(&beads_dir)
        .unwrap();
    let jsonl_path = jsonl.path().to_path_buf();

    let result = SyncSafetyValidator::validate_path_containment(
        jsonl_path.to_str().unwrap(),
        beads_dir.to_str().unwrap(),
        false,
    );
    assert!(result.is_ok());
}

#[test]
fn sync_safety_containment_allows_external_with_flag() {
    let temp = tempfile::TempDir::new().unwrap();
    let beads_dir = temp.path().join(".beads");

    // Path outside beads_dir but external allowed
    let outside_path = temp.path().join("external.jsonl");
    let result = SyncSafetyValidator::validate_path_containment(
        outside_path.to_str().unwrap(),
        beads_dir.to_str().unwrap(),
        true,
    );
    assert!(result.is_ok());
}

#[test]
fn sync_safety_containment_rejects_git_even_with_external_flag() {
    let beads_dir = PathBuf::from("/project/.beads");
    let git_path = PathBuf::from("/project/.git/config");

    // Even with allow_external=true, .git should be rejected
    let result = SyncSafetyValidator::validate_path_containment(
        git_path.to_str().unwrap(),
        beads_dir.to_str().unwrap(),
        true,
    );
    assert!(result.is_err());
    assert!(result.unwrap_err().message.contains(".git"));
}

#[test]
fn sync_safety_containment_verdict_is_component_wise() {
    assert!(SyncSafetyValidator::containment_verdict("p", "b", &bytes("/a/b/c"), &bytes("/a/b")).is_ok());
    assert!(SyncSafetyValidator::containment_verdict("p", "b", &bytes("/a/b"), &bytes("/a/b/")).is_ok());
    assert!(SyncSafetyValidator::containment_verdict("p", "b", &bytes("/a/./b/c"), &bytes("/a/b")).is_ok());
    let err = SyncSafetyValidator::containment_verdict("x.jsonl", "/r/.beads", &bytes("/a/bc"), &bytes("/a/b"))
        .unwrap_err();
    assert_eq!(err.field, "path");
    assert_eq!(
        err.message,
        "path 'x.jsonl' is outside allowed directory '/r/.beads' (use --allow-external-jsonl to override)"
    );
    assert!(SyncSafetyValidator::containment_verdict("p", "b", &bytes("a/b"), &bytes("/a")).is_err());
    assert!(SyncSafetyValidator::containment_verdict("p", "b", &bytes("./a"), &bytes("a")).is_err());
    // The verdict must agree with std's component-wise prefix test.
    for (p, b) in [
        ("/a/b/c", "/a/b"),
        ("/a//b", "/a/b"),
        ("a/./b", "a/b"),
        ("./a", "."),
        ("/a/bc", "/a/b"),
        ("/", "/"),
        ("", ""),
        ("a", ""),
        ("/x/..", "/x"),
    ] {
        assert_eq!(
            SyncSafetyValidator::containment_verdict("p", "b", &bytes(p), &bytes(b)).is_ok(),
            std::path::Path::new(p).starts_with(b),
            "{p} vs {b}"
        );
    }
}

#[test]
fn sync_safety_assert_no_git_in_sync_runs() {
    SyncSafetyValidator::assert_no_git_in_sync();
}

fn make_valid_issue(title: &str) -> Issue {
    let now = Utc::now().timestamp_micros();
    Issue {
        id: "bd-test123".to_string(),
        title: title.to_string(),
        description: None,
        status: Status::Open,
        priority: Priority::medium(),
        estimated_minutes: None,
        created_at: now,
        updated_at: now,
        closed_at: None,
        external_ref: None,
    }
}

#[test]
fn all_standard_statuses_valid() {
    let statuses = [
        Status::Open,
        Status::InProgress,
        Status::Blocked,
        Status::Deferred,
        Status::Closed,
        Status::Tombstone,
        Status::Pinned,
    ];
    for status in statuses {
        let mut issue = make_valid_issue("Test Issue");
        issue.status = status;
        if status == Status::Closed {
            issue.closed_at = Some(issue.updated_at);
        }
        let result = IssueValidator::validate(&issue);
        assert!(result.is_ok(), "Status {status:?} should be valid");
    }
}

#[test]
fn each_broken_rule_names_its_field() {
    let cases: Vec<(Box<dyn Fn(&mut Issue)>, &str)> = vec![
        (Box::new(|i: &mut Issue| i.priority = Priority(7)), "priority"),
        (Box::new(|i: &mut Issue| i.priority = Priority(-3)), "priority"),
        (Box::new(|i: &mut Issue| i.title = " \t ".to_string()), "title"),
        (Box::new(|i: &mut Issue| i.title = "x".repeat(501)), "title"),
        (Box::new(|i: &mut Issue| i.description = Some("x".repeat(102_401))), "description"),
        (Box::new(|i: &mut Issue| i.updated_at = i.created_at - 1), "updated_at"),
        (Box::new(|i: &mut Issue| i.estimated_minutes = Some(525_961)), "estimated_minutes"),
        (Box::new(|i: &mut Issue| i.external_ref = Some("gh 12".to_string())), "external_ref"),
        (Box::new(|i: &mut Issue| i.status = Status::Closed), "closed_at"),
    ];
    for (break_rule, field) in cases {
        let mut issue = make_valid_issue("Test Issue");
        break_rule(&mut issue);
        let errors = IssueValidator::validate(&issue).unwrap_err();
        assert!(errors.iter().any(|e| e.field == field), "expected a {field} error");
    }
}

#[test]
fn boundary_values_pass() {
    let mut issue = make_valid_issue(&"x".repeat(500));
    issue.priority = Priority(4);
    issue.description = Some("x".repeat(102_400));
    issue.estimated_minutes = Some(525_960);
    issue.external_ref = Some("gh-12/a_b".to_string());
    assert!(IssueValidator::validate(&issue).is_ok());
    assert!(LabelValidator::validate(&"a".repeat(128)).is_ok());
    assert!(LabelValidator::validate(&"a".repeat(129)).is_err());
    assert!(LabelValidator::validate("ab cd").is_err());
}

#[test]
fn containment_outcome_keeps_unresolved_paths_as_given() {
    // The path could not be resolved: it is judged as given, and it lies outside.
    let err = SyncSafetyValidator::containment_outcome(
        "/t/src/main.rs",
        "/t/.beads",
        None,
        Some(bytes("/t/.beads")),
    )
    .unwrap_err();
    assert_eq!(err.field, "path");
    assert!(err.message.contains("outside allowed directory"));
    assert!(SyncSafetyValidator::containment_outcome(
        "/t/.beads/issues.jsonl",
        "/t/.beads",
        None,
        None
    )
    .is_ok());
    // Resolved texts take precedence over the given ones.
    assert!(SyncSafetyValidator::containment_outcome(
        "link/issues.jsonl",
        "/t/.beads",
        Some(bytes("/t/.beads/issues.jsonl")),
        None
    )
    .is_ok());
    assert!(SyncSafetyValidator::containment_outcome(
        "/t/.beads/x",
        "/t/.beads",
        Some(bytes("/elsewhere/x")),
        None
    )
    .is_err());
}

fn bytes(s: &str) -> Vec<u8> {
    s.as_bytes().to_vec()
}

#[test]
fn containment_compares_raw_bytes() {
    // Two canonical forms that differ only in bytes that are not UTF-8 stay
    // distinct.
    assert!(SyncSafetyValidator::containment_verdict("p", "b", &b"/a/\xff/x".to_vec(), &b"/a/\xfe".to_vec())
        .is_err());
    assert!(SyncSafetyValidator::containment_verdict("p", "b", &b"/a/\xff/x".to_vec(), &b"/a/\xff".to_vec())
        .is_ok());
    assert!(SyncSafetyValidator::containment_verdict("p", "b", &bytes("/é/x"), &bytes("/é")).is_ok());
}

struct Answers {
    issue: Result<bool, BeadsError>,
    target: Result<bool, BeadsError>,
    cycle: Result<bool, BeadsError>,
    recorded: Result<bool, BeadsError>,
}

fn answers() -> Answers {
    Answers { issue: Ok(true), target: Ok(true), cycle: Ok(false), recorded: Ok(false) }
}

fn outcome_of(dep: &Dependency, a: Answers) -> Result<(), BeadsError> {
    DependencyValidator::outcome(dep, a.issue, a.target, a.cycle, a.recorded)
}

#[test]
fn dependency_outcome_passes_the_first_store_error_back() {
    let dep = Dependency {
        issue_id: "bd-a".to_string(),
        depends_on_id: "bd-b".to_string(),
        dep_type: DependencyType::Blocks,
        created_at: 0,
    };
    assert!(outcome_of(&dep, answers()).is_ok());
    let mut a = answers();
    a.target = Err(BeadsError::Database("locked".to_string()));
    a.recorded = Err(BeadsError::Database("later".to_string()));
    assert!(matches!(outcome_of(&dep, a), Err(BeadsError::Database(m)) if m == "locked"));
    let mut a = answers();
    a.cycle = Err(BeadsError::Database("cycle query".to_string()));
    assert!(matches!(outcome_of(&dep, a), Err(BeadsError::Database(m)) if m == "cycle query"));
    // The cycle answer does not count for a kind that does not block.
    let related = Dependency { dep_type: DependencyType::Related, ..dep.clone() };
    let mut a = answers();
    a.cycle = Err(BeadsError::Database("cycle query".to_string()));
    assert!(outcome_of(&related, a).is_ok());
    let mut a = answers();
    a.issue = Ok(false);
    match outcome_of(&dep, a) {
        Err(BeadsError::Validation { field, reason }) => {
            assert_eq!(field, "issue_id");
            assert_eq!(reason, "issue not found");
        }
        other => panic!("unexpected {other:?}"),
    }
}
