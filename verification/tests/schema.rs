use beads_rust::error::BeadsError;
use beads_rust::schema::driver::{
    apply_runtime_compatible_schema, apply_runtime_pragmas, apply_schema, execute_batch, run_batch,
    Reply, Request, SchemaSetup,
};
use beads_rust::schema::facts::{
    inspected_tables, runtime_schema_compatible, ColumnInfo, Snapshot, TableInfo,
};
use beads_rust::schema::plan::{
    checkpoint_ops, join_exec, kv_rebuild_ops, migration_ops, pragma_ops, pre_schema_ops,
    rebuild_issues_ops, schema_ops, stamp_ops,
};
use beads_rust::schema::script::{stale_index_failure, Op, OnFailure, ScriptRun, Step};
use beads_rust::schema::{expected_issue_column_order_list, SCHEMA_SQL};

const CANONICAL: &[&str] = &[
    "id",
    "content_hash",
    "title",
    "description",
    "design",
    "acceptance_criteria",
    "notes",
    "status",
    "priority",
    "issue_type",
    "assignee",
    "owner",
    "estimated_minutes",
    "created_at",
    "created_by",
    "updated_at",
    "closed_at",
    "close_reason",
    "closed_by_session",
    "due_at",
    "defer_until",
    "external_ref",
    "source_system",
    "source_repo",
    "deleted_at",
    "deleted_by",
    "delete_reason",
    "original_type",
    "compaction_level",
    "compacted_at",
    "compacted_at_commit",
    "original_size",
    "sender",
    "ephemeral",
    "pinned",
    "is_template",
];

fn column(name: &str, not_null: i64, pk: i64) -> ColumnInfo {
    ColumnInfo { name: Some(name.to_string()), not_null: Some(not_null), pk: Some(pk) }
}

/// A table of the layout: its name and its columns (name, not-null, pk).
struct Table<'a> {
    name: &'a str,
    columns: Vec<(&'a str, i64, i64)>,
}

fn table<'a>(name: &'a str, columns: &[&'a str]) -> Table<'a> {
    Table { name, columns: columns.iter().map(|c| (*c, 0, 0)).collect() }
}

/// A layout report as the caller would make it for the given tables.
fn layout(tables: Vec<Table>, indexes: &[&str], version: i64) -> Snapshot {
    let mut infos = Vec::new();
    for t in inspected_tables() {
        let rows = tables
            .iter()
            .find(|x| x.name == t)
            .map(|x| x.columns.iter().map(|(n, nn, pk)| column(n, *nn, *pk)).collect())
            .unwrap_or_default();
        infos.push(TableInfo { table: t.to_string(), rows: Ok(rows) });
    }
    Snapshot {
        tables: tables.iter().map(|t| t.name.to_string()).collect(),
        indexes: indexes.iter().map(|i| i.to_string()).collect(),
        table_infos: infos,
        issues_indexes: Ok(Vec::new()),
        user_version: Ok(Some(version)),
    }
}

fn empty_layout() -> Snapshot {
    layout(Vec::new(), &[], 0)
}

/// The layout of a database that holds the whole current schema.
fn full_layout(version: i64) -> Snapshot {
    let issues = Table {
        name: "issues",
        columns: CANONICAL
            .iter()
            .map(|c| {
                let nn = if ["ephemeral", "pinned", "is_template"].contains(c) { 1 } else { 0 };
                (*c, nn, if *c == "id" { 1 } else { 0 })
            })
            .collect(),
    };
    layout(
        vec![
            issues,
            table(
                "dependencies",
                &["issue_id", "depends_on_id", "type", "created_at", "created_by", "metadata", "thread_id"],
            ),
            table("labels", &["issue_id", "label"]),
            table("comments", &["id", "issue_id", "author", "text", "created_at"]),
            table(
                "events",
                &["id", "issue_id", "event_type", "actor", "old_value", "new_value", "comment", "created_at"],
            ),
            table("config", &["key", "value"]),
            table("metadata", &["key", "value"]),
            table("dirty_issues", &["issue_id", "marked_at"]),
            table("export_hashes", &["issue_id", "content_hash", "exported_at"]),
            table("blocked_issues_cache", &["issue_id", "blocked_by", "blocked_at"]),
            table("child_counters", &["parent_id", "last_child"]),
        ],
        &["idx_config_key", "idx_metadata_key"],
        version,
    )
}

struct Outcome {
    executed: Vec<String>,
    inspections: usize,
    journal_reads: usize,
    result: Result<(), BeadsError>,
}

/// Runs a setup against a simulated database: layouts are reported in
/// order, every statement succeeds unless `fail` gives its failure text.
fn drive(
    setup: (SchemaSetup, Request),
    mut layouts: Vec<Snapshot>,
    journal: &str,
    fail: &dyn Fn(&str) -> Option<String>,
) -> Outcome {
    let (mut setup, mut req) = setup;
    let mut out = Outcome { executed: Vec::new(), inspections: 0, journal_reads: 0, result: Ok(()) };
    loop {
        req = match req {
            Request::Inspect => {
                out.inspections += 1;
                setup.step(Reply::Inspected(layouts.remove(0)))
            }
            Request::ReadJournalMode => {
                out.journal_reads += 1;
                setup.step(Reply::JournalMode(journal.to_string()))
            }
            Request::Execute(sql) => {
                let outcome = match fail(&sql) {
                    Some(m) => Err(m),
                    None => Ok(()),
                };
                out.executed.push(sql);
                setup.step(Reply::Executed(outcome))
            }
            Request::Finished(r) => {
                out.result = r;
                return out;
            }
        };
    }
}

fn never(_: &str) -> Option<String> {
    None
}

fn position(executed: &[String], stmt: &str) -> Option<usize> {
    executed.iter().position(|s| s == stmt)
}

fn sql_texts(ops: &[Op]) -> Vec<String> {
    ops.iter()
        .map(|op| match op {
            Op::Run { sql, .. } => sql.clone(),
            Op::Raise { .. } => "<raise>".to_string(),
        })
        .collect()
}

// ---- Schema setups against a simulated database ----

#[test]
fn test_apply_schema() {
    let out = drive(apply_schema(), vec![empty_layout()], "memory", &never);
    assert!(out.result.is_ok());
    for t in ["issues", "dependencies", "config", "dirty_issues"] {
        let create = format!("CREATE TABLE IF NOT EXISTS {t} (");
        assert!(out.executed.iter().any(|s| s.contains(&create)), "missing {t}");
    }
    assert!(out.executed.contains(&"PRAGMA journal_mode = WAL".to_string()));
    assert!(out.executed.contains(&"PRAGMA temp_store = MEMORY".to_string()));
    assert!(out.executed.contains(&"PRAGMA foreign_keys = ON".to_string()));
}

#[test]
fn test_apply_schema_file_backed_has_no_duplicate_issues_columns() {
    let out = drive(apply_schema(), vec![empty_layout()], "wal", &never);
    let issues_sql = out
        .executed
        .iter()
        .find(|s| s.contains("CREATE TABLE IF NOT EXISTS issues ("))
        .expect("issues table should be created");
    assert_eq!(issues_sql.matches("source_repo").count(), 1);
    assert_eq!(issues_sql.matches("is_template").count(), 1);
}

#[test]
fn test_schema_parity_conformance() {
    let out = drive(apply_schema(), vec![empty_layout()], "wal", &never);
    let issues_sql = out
        .executed
        .iter()
        .find(|s| s.contains("CREATE TABLE IF NOT EXISTS issues ("))
        .unwrap();
    assert!(issues_sql.contains("status TEXT NOT NULL DEFAULT 'open'"));
    assert!(issues_sql.contains("priority INTEGER NOT NULL DEFAULT 2"));
    assert!(issues_sql.contains("issue_type TEXT NOT NULL DEFAULT 'task'"));
    assert!(issues_sql.contains("created_at DATETIME NOT NULL DEFAULT CURRENT_TIMESTAMP"));
    assert!(issues_sql.contains("updated_at DATETIME NOT NULL DEFAULT CURRENT_TIMESTAMP"));
    for idx in [
        "idx_issues_status",
        "idx_issues_priority",
        "idx_issues_issue_type",
        "idx_issues_created_at",
        "idx_issues_updated_at",
        "idx_issues_content_hash",
        "idx_issues_external_ref_unique",
        "idx_issues_ephemeral",
        "idx_issues_pinned",
        "idx_issues_tombstone",
        "idx_issues_due_at",
        "idx_issues_defer_until",
    ] {
        assert!(
            out.executed.iter().any(|s| s.contains(&format!("INDEX IF NOT EXISTS {idx} "))),
            "missing {idx}"
        );
    }
}

#[test]
fn test_migration_blocked_cache_upgrade() {
    // An existing database whose cache still has the old blocked_by_json column.
    let mut before = full_layout(0);
    let cache = before
        .table_infos
        .iter_mut()
        .find(|t| t.table == "blocked_issues_cache")
        .unwrap();
    cache.rows = Ok(vec![column("issue_id", 0, 1), column("blocked_by_json", 1, 0)]);
    let ops = migration_ops(&before, false);
    let sql = sql_texts(&ops);
    assert_eq!(sql[0], "BEGIN IMMEDIATE");
    assert_eq!(sql[1], "DROP TABLE IF EXISTS blocked_issues_cache");
    assert!(sql[2].starts_with("CREATE TABLE blocked_issues_cache ("));
    assert!(sql[2].contains("blocked_by TEXT NOT NULL"));
    assert!(sql[2].contains("blocked_at DATETIME NOT NULL"));
    assert!(!sql[2].contains("blocked_by_json"));
    assert_eq!(sql[4], "COMMIT");
}

#[test]
fn test_migration_blocked_cache_missing_issue_id() {
    let mut before = full_layout(0);
    let cache = before
        .table_infos
        .iter_mut()
        .find(|t| t.table == "blocked_issues_cache")
        .unwrap();
    cache.rows = Ok(vec![column("id", 0, 1), column("blocked_by", 1, 0), column("blocked_at", 1, 0)]);
    let out = drive(apply_schema(), vec![before, full_layout(0)], "wal", &never);
    assert!(out.result.is_ok());
    let dropped = position(&out.executed, "DROP TABLE IF EXISTS blocked_issues_cache").unwrap();
    let created = out
        .executed
        .iter()
        .position(|s| s.contains("CREATE TABLE IF NOT EXISTS blocked_issues_cache ("))
        .unwrap();
    assert!(dropped < created, "the stale cache is dropped before the schema recreates it");
    let sql = &out.executed[created];
    assert!(sql.contains("issue_id TEXT PRIMARY KEY"));
    assert!(sql.contains("blocked_by TEXT NOT NULL"));
    assert!(sql.contains("blocked_at DATETIME NOT NULL"));
}

#[test]
fn test_migration_adds_missing_issue_columns() {
    // CREATE TABLE issues (id TEXT PRIMARY KEY, title TEXT NOT NULL)
    let before = layout(vec![Table { name: "issues", columns: vec![("id", 0, 1), ("title", 1, 0)] }], &[], 0);
    let out = drive(apply_schema(), vec![before, full_layout(0)], "wal", &never);
    assert!(out.result.is_ok());
    let create = out
        .executed
        .iter()
        .find(|s| s.starts_with("CREATE TABLE issues ("))
        .expect("the legacy table is rebuilt with the canonical columns");
    for column in [
        "description",
        "design",
        "acceptance_criteria",
        "notes",
        "owner",
        "created_by",
        "updated_at",
        "source_repo",
        "compaction_level",
        "sender",
        "is_template",
    ] {
        assert!(create.contains(&format!("{column} ")), "missing column {column}");
    }
    assert!(out.executed.contains(
        &"INSERT INTO issues_rebuild_tmp (id, title) SELECT id, title FROM issues".to_string()
    ));
}

#[test]
fn test_rebuild_issues_table_errors_when_canonical_columns_are_missing() {
    // CREATE TABLE issues (legacy_only TEXT)
    let before = layout(vec![table("issues", &["legacy_only"])], &[], 0);
    let ops = rebuild_issues_ops(&before);
    let (mut run, mut st) = ScriptRun::start(ops);
    let mut executed = Vec::new();
    let result = loop {
        match st {
            Step::Execute(sql) => {
                executed.push(sql);
                st = run.resume(Ok(()));
            }
            Step::Finished(r) => break r,
        }
    };
    let err = result.expect_err("rebuild should fail");
    assert!(matches!(err, BeadsError::Config(_)));
    assert_eq!(executed.last().map(String::as_str), Some("PRAGMA foreign_keys = ON"));
    assert_eq!(executed[executed.len() - 2], "ROLLBACK", "failed rebuild should roll back the temporary table");
    assert!(executed.contains(&"DROP TABLE IF EXISTS issues_rebuild_tmp".to_string()));
}

#[test]
fn test_migration_adds_missing_dependency_type() {
    let before = layout(
        vec![
            Table { name: "issues", columns: vec![("id", 0, 1), ("title", 1, 0)] },
            Table { name: "dependencies", columns: vec![("issue_id", 1, 1), ("depends_on_id", 1, 2)] },
        ],
        &[],
        0,
    );
    let out = drive(apply_schema(), vec![before, full_layout(0)], "wal", &never);
    assert!(out.result.is_ok());
    assert!(
        out.executed.contains(
            &"ALTER TABLE dependencies ADD COLUMN type TEXT NOT NULL DEFAULT 'blocks'".to_string()
        ),
        "missing dependency type column"
    );
}

#[test]
fn test_migration_rebuilds_legacy_config_metadata_primary_keys() {
    let before = layout(
        vec![
            Table { name: "config", columns: vec![("key", 0, 1), ("value", 1, 0)] },
            Table { name: "metadata", columns: vec![("key", 0, 1), ("value", 1, 0)] },
        ],
        &[],
        0,
    );
    let (ops, rebuilt) = pre_schema_ops(&before);
    assert!(!rebuilt);
    let sql = sql_texts(&ops);
    let expected_config = vec![
        "BEGIN EXCLUSIVE",
        "DROP TABLE IF EXISTS config_rebuild_tmp",
        "CREATE TABLE config_rebuild_tmp (\n                key TEXT NOT NULL,\n                value TEXT NOT NULL\n            )",
        "INSERT INTO config_rebuild_tmp (key, value)\n             SELECT key, value\n             FROM config",
        "DROP TABLE config",
        "ALTER TABLE config_rebuild_tmp RENAME TO config",
        "COMMIT",
    ];
    assert_eq!(&sql[0..7], &expected_config[..]);
    assert_eq!(sql[7], "BEGIN EXCLUSIVE");
    assert_eq!(sql[10], "INSERT INTO metadata_rebuild_tmp (key, value)\n             SELECT key, value\n             FROM metadata");
    assert_eq!(sql[12], "ALTER TABLE metadata_rebuild_tmp RENAME TO metadata");
    assert_eq!(sql.len(), 14);
}

#[test]
fn test_runtime_schema_compatible_rejects_legacy_kv_primary_keys() {
    let mut legacy = full_layout(4);
    legacy.indexes.clear();
    for t in legacy.table_infos.iter_mut() {
        if t.table == "config" || t.table == "metadata" {
            t.rows = Ok(vec![column("key", 0, 1), column("value", 1, 0)]);
        }
    }
    assert!(
        !runtime_schema_compatible(&legacy),
        "legacy config/metadata primary keys should force the full repair path"
    );
    assert!(runtime_schema_compatible(&full_layout(4)));
}

// ---- Setup flows ----

#[test]
fn fresh_database_is_stamped_and_never_upgraded() {
    let out = drive(apply_schema(), vec![empty_layout()], "memory", &never);
    assert!(out.result.is_ok());
    assert_eq!(out.inspections, 1);
    assert_eq!(out.journal_reads, 1);
    let stamp = position(&out.executed, "PRAGMA user_version = 4").unwrap();
    let wal = position(&out.executed, "PRAGMA journal_mode = WAL").unwrap();
    assert_eq!(stamp + 1, wal, "settings follow the stamp directly");
    assert_eq!(out.executed.last().unwrap(), "PRAGMA wal_checkpoint(TRUNCATE)");
    assert!(position(&out.executed, "DROP INDEX IF EXISTS idx_issues_ready").is_none());
}

#[test]
fn fresh_database_checkpoint_failure_is_ignored() {
    let fail = |s: &str| {
        if s.starts_with("PRAGMA wal_checkpoint") {
            Some("busy".to_string())
        } else {
            None
        }
    };
    let out = drive(apply_schema(), vec![empty_layout()], "wal", &fail);
    assert!(out.result.is_ok());
    assert!(position(&out.executed, "PRAGMA journal_mode = WAL").is_none());
}

#[test]
fn existing_database_is_upgraded_then_stamped() {
    let out = drive(apply_schema(), vec![full_layout(2), full_layout(2)], "WAL", &never);
    assert!(out.result.is_ok());
    assert_eq!(out.inspections, 2);
    let ready = position(&out.executed, "DROP INDEX IF EXISTS idx_issues_ready").unwrap();
    let stamp = position(&out.executed, "PRAGMA user_version = 4").unwrap();
    assert!(ready < stamp);
    assert_eq!(out.executed[stamp + 1], "PRAGMA foreign_keys = ON");
    assert_eq!(out.executed.last().unwrap(), "PRAGMA wal_autocheckpoint = 0");
    assert!(position(&out.executed, "PRAGMA wal_checkpoint(TRUNCATE)").is_none());
}

#[test]
fn current_database_skips_version_upgrades() {
    let out = drive(apply_schema(), vec![full_layout(4), full_layout(4)], "wal", &never);
    assert!(out.result.is_ok());
    assert!(position(&out.executed, "DROP INDEX IF EXISTS idx_issues_ready").is_none());
    assert!(position(&out.executed, "UPDATE issues SET ephemeral = 0 WHERE ephemeral IS NULL").is_none());
}

#[test]
fn nullable_filter_columns_trigger_the_v3_rebuild() {
    let mut old = full_layout(2);
    for t in old.table_infos.iter_mut() {
        if t.table == "issues" {
            if let Ok(rows) = &mut t.rows {
                for r in rows.iter_mut() {
                    if r.name.as_deref() == Some("pinned") {
                        r.not_null = Some(0);
                    }
                }
            }
        }
    }
    let ops = migration_ops(&old, false);
    let sql = sql_texts(&ops);
    assert_eq!(sql[1], "UPDATE issues SET ephemeral = 0 WHERE ephemeral IS NULL");
    assert_eq!(sql[4], "PRAGMA foreign_keys = OFF");
    assert!(sql.contains(&"DROP TABLE issues".to_string()));
    // After a rebuild in the repairs, the version upgrades are skipped.
    let sql_rebuilt = sql_texts(&migration_ops(&old, true));
    assert!(!sql_rebuilt.contains(&"DROP TABLE issues".to_string()));
    assert!(!sql_rebuilt.contains(&"DROP INDEX IF EXISTS idx_issues_ready".to_string()));
}

#[test]
fn unreadable_version_stops_the_upgrades() {
    let mut later = full_layout(0);
    later.user_version = Err("disk I/O error".to_string());
    let out = drive(apply_schema(), vec![full_layout(0), later], "wal", &never);
    match out.result {
        Err(BeadsError::Database(m)) => assert_eq!(m, "disk I/O error"),
        other => panic!("unexpected {other:?}"),
    }
    assert!(position(&out.executed, "PRAGMA user_version = 4").is_none());
}

#[test]
fn failed_statement_stops_the_setup_with_its_text() {
    let fail = |s: &str| {
        if s.contains("CREATE TABLE IF NOT EXISTS labels") {
            Some("disk full".to_string())
        } else {
            None
        }
    };
    let out = drive(apply_schema(), vec![empty_layout()], "wal", &fail);
    match out.result {
        Err(BeadsError::Database(m)) => assert_eq!(m, "disk full"),
        other => panic!("unexpected {other:?}"),
    }
    assert!(out.executed.last().unwrap().contains("CREATE TABLE IF NOT EXISTS labels"));
    assert_eq!(out.journal_reads, 0);
}

#[test]
fn failed_kv_rebuild_is_rolled_back() {
    let before = layout(vec![Table { name: "config", columns: vec![("key", 0, 1), ("value", 1, 0)] }], &[], 0);
    let fail = |s: &str| {
        if s == "DROP TABLE config" {
            Some("locked".to_string())
        } else {
            None
        }
    };
    let out = drive(apply_schema(), vec![before], "wal", &fail);
    match out.result {
        Err(BeadsError::Database(m)) => assert_eq!(m, "locked"),
        other => panic!("unexpected {other:?}"),
    }
    assert_eq!(out.executed.last().unwrap(), "ROLLBACK");
}

#[test]
fn runtime_compatible_setup_upgrades_without_repairs() {
    let out = drive(apply_runtime_compatible_schema(), vec![full_layout(4)], "wal", &never);
    assert!(out.result.is_ok());
    assert_eq!(out.inspections, 1);
    assert!(out.executed[0].contains("CREATE TABLE IF NOT EXISTS issues ("));
    assert!(position(&out.executed, "PRAGMA user_version = 4").is_some());
    assert!(position(&out.executed, "PRAGMA wal_checkpoint(TRUNCATE)").is_none());
}

#[test]
fn runtime_pragmas_alone() {
    let out = drive(apply_runtime_pragmas(), Vec::new(), "", &never);
    assert!(out.result.is_ok());
    assert_eq!(
        out.executed,
        vec![
            "PRAGMA journal_mode = WAL",
            "PRAGMA foreign_keys = ON",
            "PRAGMA synchronous = NORMAL",
            "PRAGMA temp_store = MEMORY",
            "PRAGMA cache_size = -8000",
            "PRAGMA journal_size_limit = 33554432",
            "PRAGMA wal_autocheckpoint = 0",
        ]
    );
}

// ---- Scripts and plans ----

#[test]
fn batch_skips_stale_index_failures_only() {
    let (mut run, st) = execute_batch("CREATE TABLE a (x INT); CREATE INDEX i ON a(y); SELECT 1");
    assert!(matches!(st, Step::Execute(ref s) if s == "CREATE TABLE a (x INT)"));
    let st = run.resume(Ok(()));
    assert!(matches!(st, Step::Execute(ref s) if s == "CREATE INDEX i ON a(y)"));
    let st = run.resume(Err("no such column: y".to_string()));
    assert!(matches!(st, Step::Execute(ref s) if s == "SELECT 1"));
    let st = run.resume(Err("no such column: y".to_string()));
    match st {
        Step::Finished(Err(BeadsError::Database(m))) => assert_eq!(m, "no such column: y"),
        other => panic!("unexpected {other:?}"),
    }
}

#[test]
fn empty_batch_finishes_at_once() {
    let (_, st) = execute_batch("  ;  ");
    assert!(matches!(st, Step::Finished(Ok(()))));
}

#[test]
fn stale_index_failure_ignores_comments_and_case() {
    assert!(stale_index_failure("-- note\n  create unique index x on t(c)", "no such column: c"));
    assert!(stale_index_failure("CREATE INDEX x ON t(c)", "error: no such column: c"));
    assert!(!stale_index_failure("CREATE TABLE t (c)", "no such column: c"));
    assert!(!stale_index_failure("CREATE INDEX x ON t(c)", "database is locked"));
}

#[test]
fn cleanup_runs_whatever_its_outcome() {
    let ops = vec![
        Op::Run { sql: "A".to_string(), on_failure: OnFailure::Cleanup(vec!["R1".to_string(), "R2".to_string()]) },
        Op::Run { sql: "B".to_string(), on_failure: OnFailure::Abort },
    ];
    let (mut run, st) = ScriptRun::start(ops);
    assert!(matches!(st, Step::Execute(ref s) if s == "A"));
    let st = run.resume(Err("boom".to_string()));
    assert!(matches!(st, Step::Execute(ref s) if s == "R1"));
    let st = run.resume(Err("ignored".to_string()));
    assert!(matches!(st, Step::Execute(ref s) if s == "R2"));
    match run.resume(Ok(())) {
        Step::Finished(Err(BeadsError::Database(m))) => assert_eq!(m, "boom"),
        other => panic!("unexpected {other:?}"),
    }
}

#[test]
fn raise_without_cleanup_finishes_with_its_error() {
    let ops = vec![Op::Raise { error: BeadsError::Config("bad".to_string()), cleanup: Vec::new() }];
    let (_, st) = ScriptRun::start(ops);
    match st {
        Step::Finished(Err(BeadsError::Config(m))) => assert_eq!(m, "bad"),
        other => panic!("unexpected {other:?}"),
    }
}

#[test]
fn wal_is_not_reasserted_in_any_case() {
    assert_eq!(sql_texts(&pragma_ops("WaL")).len(), 6);
    assert_eq!(sql_texts(&pragma_ops("delete"))[0], "PRAGMA journal_mode = WAL");
}

#[test]
fn kv_rebuild_statements() {
    let sql = sql_texts(&kv_rebuild_ops("metadata"));
    assert_eq!(sql[1], "DROP TABLE IF EXISTS metadata_rebuild_tmp");
    assert_eq!(sql[4], "DROP TABLE metadata");
    match &kv_rebuild_ops("metadata")[2] {
        Op::Run { on_failure: OnFailure::Cleanup(c), .. } => assert_eq!(c, &vec!["ROLLBACK".to_string()]),
        other => panic!("unexpected {other:?}"),
    }
}

#[test]
fn rebuild_copies_columns_in_canonical_order() {
    // Old order: title before id, plus a column that is not canonical.
    let before = layout(vec![table("issues", &["title", "legacy", "id", "status"])], &[], 0);
    let sql = sql_texts(&rebuild_issues_ops(&before));
    assert!(sql.contains(
        &"INSERT INTO issues (id, title, status) SELECT id, title, status FROM issues_rebuild_tmp".to_string()
    ));
    let create = sql.iter().find(|s| s.starts_with("CREATE TABLE issues (")).unwrap();
    let names: Vec<&str> = create["CREATE TABLE issues (".len()..]
        .split(", ")
        .take_while(|p| !p.starts_with("CHECK"))
        .map(|p| p.split(' ').next().unwrap())
        .collect();
    assert_eq!(names, expected_issue_column_order_list());
}

#[test]
fn rebuild_drops_issue_indexes_first() {
    let mut before = layout(vec![table("issues", &["id", "title"])], &[], 0);
    before.issues_indexes = Ok(vec!["idx_a".to_string(), "idx_b".to_string()]);
    let sql = sql_texts(&rebuild_issues_ops(&before));
    assert_eq!(sql[0], "PRAGMA foreign_keys = OFF");
    assert_eq!(sql[1], "BEGIN EXCLUSIVE");
    assert_eq!(sql[2], "DROP INDEX IF EXISTS \"idx_a\"");
    assert_eq!(sql[3], "DROP INDEX IF EXISTS \"idx_b\"");
    assert_eq!(sql[sql.len() - 1], "PRAGMA foreign_keys = ON");
}

#[test]
fn unreadable_issues_layout_fails_the_rebuild() {
    let mut before = empty_layout();
    for t in before.table_infos.iter_mut() {
        if t.table == "issues" {
            t.rows = Err("malformed".to_string());
        }
    }
    let (ops, rebuilt) = pre_schema_ops(&before);
    assert!(rebuilt);
    assert!(matches!(&ops[0], Op::Raise { error: BeadsError::Database(m), .. } if m == "malformed"));
}

#[test]
fn schema_and_stamp_scripts() {
    let sql = sql_texts(&schema_ops());
    assert!(sql.iter().all(|s| !s.trim().is_empty() && s.trim() == s.as_str()));
    assert!(sql.len() > 20);
    assert!(SCHEMA_SQL.contains("CREATE TABLE IF NOT EXISTS child_counters"));
    assert_eq!(sql_texts(&stamp_ops()), vec!["PRAGMA user_version = 4"]);
    match &checkpoint_ops()[0] {
        Op::Run { sql, on_failure: OnFailure::Ignore } => assert_eq!(sql, "PRAGMA wal_checkpoint(TRUNCATE)"),
        other => panic!("unexpected {other:?}"),
    }
}

#[test]
fn join_with_separator() {
    let parts = vec!["a".to_string(), "b".to_string(), "c".to_string()];
    assert_eq!(join_exec(&parts, ", "), "a, b, c");
    assert_eq!(join_exec(&Vec::new(), ", "), "");
}

#[test]
fn repaired_layout_needs_no_repairs() {
    let (ops, rebuilt) = pre_schema_ops(&full_layout(4));
    assert!(ops.is_empty());
    assert!(!rebuilt);
}

#[test]
fn failed_setting_fails_an_existing_database() {
    let fail = |s: &str| {
        if s == "PRAGMA synchronous = NORMAL" {
            Some("read-only".to_string())
        } else {
            None
        }
    };
    let out = drive(apply_schema(), vec![full_layout(4), full_layout(4)], "wal", &fail);
    match out.result {
        Err(BeadsError::Database(m)) => assert_eq!(m, "read-only"),
        other => panic!("unexpected {other:?}"),
    }
    assert_eq!(out.executed.last().unwrap(), "PRAGMA synchronous = NORMAL");
}

#[test]
fn unreadable_issues_layout_stops_the_setup_at_once() {
    let mut before = empty_layout();
    for t in before.table_infos.iter_mut() {
        if t.table == "issues" {
            t.rows = Err("malformed".to_string());
        }
    }
    let out = drive(apply_schema(), vec![before], "wal", &never);
    match out.result {
        Err(BeadsError::Database(m)) => assert_eq!(m, "malformed"),
        other => panic!("unexpected {other:?}"),
    }
    assert!(out.executed.is_empty());
}

#[test]
fn whole_batch_run_stops_at_the_first_real_failure() {
    let sql = "CREATE TABLE a (x); CREATE INDEX i ON a(y); INSERT INTO a VALUES (1); SELECT 1";
    let answers = vec![
        Ok(()),
        Err("no such column: y".to_string()),
        Err("constraint failed".to_string()),
        Ok(()),
    ];
    let (executed, result) = run_batch(sql, &answers);
    assert_eq!(executed, 3);
    match result {
        Err(BeadsError::Database(m)) => assert_eq!(m, "constraint failed"),
        other => panic!("unexpected {other:?}"),
    }
    let all_ok = vec![Ok(()), Err("no such column: y".to_string()), Ok(()), Ok(())];
    let (executed, result) = run_batch(sql, &all_ok);
    assert_eq!(executed, 4);
    assert!(result.is_ok());
    let (executed, result) = run_batch(" ; ", &Vec::new());
    assert_eq!(executed, 0);
    assert!(result.is_ok());
}
