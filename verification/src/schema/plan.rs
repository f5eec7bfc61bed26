//! The statements that create, repair and migrate the schema, planned from
//! what the caller reports about the database.
//!
//! Each plan is a script (see [`super::script`]). A plan that depends on the
//! database takes a [`Snapshot`] of it, reported before the plan runs. The
//! statements of one plan do not change what the plan's decisions read: the
//! repairs of one table never touch the layout of another, and the row
//! updates of the upgrades leave every table's columns as they were.

use vstd::prelude::*;
use super::facts::{
    Snapshot,
    column_exists,
    column_exists_exec,
    filter_columns_need_rebuild,
    filter_columns_need_rebuild_exec,
    find_info,
    info_rows,
    issues_column_order_matches,
    issues_column_order_matches_exec,
    kv_needs_rebuild,
    kv_needs_rebuild_exec,
    table_exists,
    table_exists_exec,
    text_names,
    text_names_exec,
    flag,
};
use super::script::{OnFailure, Op};
use super::{
    ISSUES_CLOSED_AT_CHECK,
    SCHEMA_SQL,
    canonical_issue_columns,
    canonical_issue_columns_list,
    comment_columns,
    comment_columns_list,
    dependency_columns,
    dependency_columns_list,
    event_columns,
    event_columns_list,
    issue_columns,
    issue_columns_list,
    pair_views,
    str_views,
};
use crate::error::BeadsError;
use crate::sql_split::{split_sql_statements, sql_statements, views};
use crate::text::{eq_ignore_ascii_case, eq_ignore_ascii_case_exec, text_eq};

verus! {

/// Indexes on `issues` that existing databases may lack.
pub const MIGRATION_INDEX_SQL: &'static str = "\n        -- Export/sync patterns\n        CREATE INDEX IF NOT EXISTS idx_issues_content_hash ON issues(content_hash);\n        CREATE UNIQUE INDEX IF NOT EXISTS idx_issues_external_ref_unique ON issues(external_ref) WHERE external_ref IS NOT NULL;\n\n        -- Special states\n        CREATE INDEX IF NOT EXISTS idx_issues_ephemeral ON issues(ephemeral) WHERE ephemeral = 1;\n        CREATE INDEX IF NOT EXISTS idx_issues_pinned ON issues(pinned) WHERE pinned = 1;\n        CREATE INDEX IF NOT EXISTS idx_issues_tombstone ON issues(status) WHERE status = 'tombstone';\n\n        -- Time-based\n        CREATE INDEX IF NOT EXISTS idx_issues_due_at ON issues(due_at) WHERE due_at IS NOT NULL;\n        CREATE INDEX IF NOT EXISTS idx_issues_defer_until ON issues(defer_until) WHERE defer_until IS NOT NULL;\n\n        -- Ready work composite index (most important for performance)\n        CREATE INDEX IF NOT EXISTS idx_issues_ready\n            ON issues(status, priority, created_at)\n            WHERE status = 'open'\n            AND ephemeral = 0\n            AND pinned = 0\n            AND is_template = 0;\n\n        -- Common active list path: non-terminal issues sorted by priority/created_at\n        CREATE INDEX IF NOT EXISTS idx_issues_list_active_order\n            ON issues(priority, created_at DESC)\n            WHERE status NOT IN ('closed', 'tombstone')\n            AND (is_template = 0 OR is_template IS NULL);\n\n    ";

/// Legacy index names that are dropped when present.
pub const LEGACY_INDEX_DROP_SQL: &'static str = "\n        DROP INDEX IF EXISTS idx_dependencies_issue_id;\n        DROP INDEX IF EXISTS idx_dependencies_depends_on_id;\n        DROP INDEX IF EXISTS idx_dependencies_composite;\n        DROP INDEX IF EXISTS idx_labels_issue_id;\n    ";

/// Indexes on `dependencies`.
pub const DEPENDENCY_INDEX_SQL: &'static str = "\n            CREATE INDEX IF NOT EXISTS idx_dependencies_issue ON dependencies(issue_id);\n            CREATE INDEX IF NOT EXISTS idx_dependencies_depends_on ON dependencies(depends_on_id);\n            CREATE INDEX IF NOT EXISTS idx_dependencies_type ON dependencies(type);\n            CREATE INDEX IF NOT EXISTS idx_dependencies_depends_on_type ON dependencies(depends_on_id, type);\n            CREATE INDEX IF NOT EXISTS idx_dependencies_thread ON dependencies(thread_id) WHERE thread_id != '';\n            -- Composite for blocking lookups\n            CREATE INDEX IF NOT EXISTS idx_dependencies_blocking\n                ON dependencies(depends_on_id, issue_id)\n                WHERE (type = 'blocks' OR type = 'parent-child' OR type = 'conditional-blocks' OR type = 'waits-for');\n        ";

/// Indexes on `labels`.
pub const LABEL_INDEX_SQL: &'static str = "\n            CREATE INDEX IF NOT EXISTS idx_labels_label ON labels(label);\n            CREATE INDEX IF NOT EXISTS idx_labels_issue ON labels(issue_id);\n        ";

/// Indexes on `events`.
pub const EVENT_INDEX_SQL: &'static str = "\n            CREATE INDEX IF NOT EXISTS idx_events_issue ON events(issue_id);\n            CREATE INDEX IF NOT EXISTS idx_events_type ON events(event_type);\n            CREATE INDEX IF NOT EXISTS idx_events_actor ON events(actor) WHERE actor != '';\n        ";

/// The blocked-issues cache table.
pub const BLOCKED_CACHE_TABLE_SQL: &'static str = "CREATE TABLE blocked_issues_cache (\n                    issue_id TEXT PRIMARY KEY,\n                    blocked_by TEXT NOT NULL,\n                    blocked_at DATETIME NOT NULL DEFAULT CURRENT_TIMESTAMP,\n                    FOREIGN KEY (issue_id) REFERENCES issues(id) ON DELETE CASCADE\n                )";

/// The index that serves ready-work queries.
pub const READY_INDEX_SQL: &'static str = "CREATE INDEX idx_issues_ready\n                 ON issues(status, priority, created_at)\n                 WHERE status = 'open'\n                 AND ephemeral = 0\n                 AND pinned = 0\n                 AND is_template = 0";

/// Column list of a rebuilt key-value table.
pub const KV_TMP_COLUMNS: &'static str = " (\n                key TEXT NOT NULL,\n                value TEXT NOT NULL\n            )";

/// Middle part of the copy into a rebuilt key-value table.
pub const KV_COPY_MIDDLE: &'static str = " (key, value)\n             SELECT key, value\n             FROM ";

/// Text of the error raised when a legacy issues table has none of the
/// canonical columns.
pub const NO_CANONICAL_COLUMNS: &'static str = "Cannot rebuild legacy issues table: no canonical issue columns were found";

// Views of scripts.

/// What a failure leads to, as plain values.
pub enum FailView {
    Abort,
    Cleanup(Seq<Seq<char>>),
    SkipStaleIndex,
    Ignore,
}

/// A raised error, as plain values.
pub enum ErrorView {
    Database(Seq<char>),
    Config(Seq<char>),
    Other,
}

/// A script step, as plain values.
pub enum OpView {
    Run(Seq<char>, FailView),
    Raise(ErrorView, Seq<Seq<char>>),
}

pub open spec fn texts(v: Seq<String>) -> Seq<Seq<char>> {
    v.map_values(|s: String| s@)
}

pub open spec fn fail_view(f: OnFailure) -> FailView {
    match f {
        OnFailure::Abort => FailView::Abort,
        OnFailure::Cleanup(c) => FailView::Cleanup(texts(c@)),
        OnFailure::SkipStaleIndex => FailView::SkipStaleIndex,
        OnFailure::Ignore => FailView::Ignore,
    }
}

pub open spec fn error_view(e: BeadsError) -> ErrorView {
    match e {
        BeadsError::Database(m) => ErrorView::Database(m@),
        BeadsError::Config(m) => ErrorView::Config(m@),
        _ => ErrorView::Other,
    }
}

pub open spec fn op_view(op: Op) -> OpView {
    match op {
        Op::Run { sql, on_failure } => OpView::Run(sql@, fail_view(on_failure)),
        Op::Raise { error, cleanup } => OpView::Raise(error_view(error), texts(cleanup@)),
    }
}

pub open spec fn ops_view(v: Seq<Op>) -> Seq<OpView> {
    v.map_values(|op: Op| op_view(op))
}

/// Execute `sql`; a failure stops the script.
pub open spec fn run(sql: Seq<char>) -> OpView {
    OpView::Run(sql, FailView::Abort)
}

/// Execute each statement of `stmts`, skipping stale index failures.
pub open spec fn batch(stmts: Seq<Seq<char>>) -> Seq<OpView> {
    stmts.map_values(|s: Seq<char>| OpView::Run(s, FailView::SkipStaleIndex))
}

/// `parts` joined with `sep`.
pub open spec fn join(parts: Seq<Seq<char>>, sep: Seq<char>) -> Seq<char>
    decreases parts.len(),
{
    if parts.len() == 0 {
        Seq::empty()
    } else if parts.len() == 1 {
        parts[0]
    } else {
        join(parts.drop_last(), sep) + sep + parts.last()
    }
}

// Plans.

/// Rebuilds the key-value table `t` as a plain table (no primary key), in
/// one transaction.
pub open spec fn kv_rebuild_plan(t: Seq<char>) -> Seq<OpView> {
    let tmp = t + "_rebuild_tmp"@;
    let c = FailView::Cleanup(seq!["ROLLBACK"@]);
    seq![
        run("BEGIN EXCLUSIVE"@),
        OpView::Run("DROP TABLE IF EXISTS "@ + tmp, c),
        OpView::Run("CREATE TABLE "@ + tmp + KV_TMP_COLUMNS@, c),
        OpView::Run("INSERT INTO "@ + tmp + KV_COPY_MIDDLE@ + t, c),
        OpView::Run("DROP TABLE "@ + t, c),
        OpView::Run("ALTER TABLE "@ + tmp + " RENAME TO "@ + t, c),
        run("COMMIT"@),
    ]
}

/// The statement adding column `name` with `definition` to table `t`.
pub open spec fn add_column_sql(t: Seq<char>, name: Seq<char>, definition: Seq<char>) -> Seq<char> {
    "ALTER TABLE "@ + t + " ADD COLUMN "@ + name + " "@ + definition
}

/// The statements adding to `t` the listed columns it lacks.
pub open spec fn missing_columns_plan(
    s: Snapshot,
    t: Seq<char>,
    cols: Seq<(Seq<char>, Seq<char>)>,
) -> Seq<OpView>
    decreases cols.len(),
{
    if cols.len() == 0 {
        Seq::empty()
    } else {
        let p = missing_columns_plan(s, t, cols.drop_last());
        let (name, definition) = cols.last();
        if column_exists(s, t, name) {
            p
        } else {
            p.push(run(add_column_sql(t, name, definition)))
        }
    }
}

/// Adds the listed columns to table `t` when it exists and lacks them.
pub open spec fn ensure_columns_plan(
    s: Snapshot,
    t: Seq<char>,
    cols: Seq<(Seq<char>, Seq<char>)>,
) -> Seq<OpView> {
    if table_exists(s, t) {
        missing_columns_plan(s, t, cols)
    } else {
        Seq::empty()
    }
}

/// Column definitions of the canonical issues table, with its closed-at
/// constraint last.
pub open spec fn issue_table_items() -> Seq<Seq<char>> {
    column_definitions(canonical_issue_columns()).push(ISSUES_CLOSED_AT_CHECK@)
}

/// Each column as `<name> <definition>`.
pub open spec fn column_definitions(cols: Seq<(Seq<char>, Seq<char>)>) -> Seq<Seq<char>> {
    cols.map_values(|p: (Seq<char>, Seq<char>)| p.0 + " "@ + p.1)
}

/// `CREATE TABLE <t> (...)` with the canonical issue columns.
pub open spec fn create_issue_table_sql(t: Seq<char>) -> Seq<char> {
    "CREATE TABLE "@ + t + " ("@ + join(issue_table_items(), ", "@) + ")"@
}

/// The canonical columns, in canonical order, that `existing` holds.
pub open spec fn projected_columns(cols: Seq<(Seq<char>, Seq<char>)>, existing: Seq<Seq<char>>) -> Seq<
    Seq<char>,
>
    decreases cols.len(),
{
    if cols.len() == 0 {
        Seq::empty()
    } else {
        let p = projected_columns(cols.drop_last(), existing);
        if existing.contains(cols.last().0) {
            p.push(cols.last().0)
        } else {
            p
        }
    }
}

/// `INSERT INTO <to> (cols) SELECT cols FROM <from>`.
pub open spec fn copy_sql(to: Seq<char>, from: Seq<char>, cols: Seq<Seq<char>>) -> Seq<char> {
    "INSERT INTO "@ + to + " ("@ + join(cols, ", "@) + ") SELECT "@ + join(cols, ", "@) + " FROM "@
        + from
}

/// Statements run when a rebuild of the issues table fails.
pub open spec fn issues_rebuild_cleanup() -> Seq<Seq<char>> {
    seq!["ROLLBACK"@, "PRAGMA foreign_keys = ON"@]
}

/// `DROP INDEX IF EXISTS "<name>"`.
pub open spec fn drop_index_sql(name: Seq<char>) -> Seq<char> {
    "DROP INDEX IF EXISTS \""@ + name + "\""@
}

/// The body of the issues-table rebuild, inside its transaction.
pub open spec fn rebuild_issues_body(s: Snapshot, existing: Seq<Seq<char>>) -> Seq<OpView> {
    let c = FailView::Cleanup(issues_rebuild_cleanup());
    match s.issues_indexes {
        Err(m) => seq![OpView::Raise(ErrorView::Database(m@), issues_rebuild_cleanup())],
        Ok(names) => {
            let projected = projected_columns(canonical_issue_columns(), existing);
            texts(names@).map_values(|n: Seq<char>| OpView::Run(drop_index_sql(n), c)) + seq![
                OpView::Run("DROP TABLE IF EXISTS issues_rebuild_tmp"@, c),
                OpView::Run(create_issue_table_sql("issues_rebuild_tmp"@), c),
            ] + if projected.len() == 0 {
                seq![
                    OpView::Raise(
                        ErrorView::Config(NO_CANONICAL_COLUMNS@),
                        issues_rebuild_cleanup(),
                    ),
                ]
            } else {
                seq![
                    OpView::Run(copy_sql("issues_rebuild_tmp"@, "issues"@, projected), c),
                    OpView::Run("DROP TABLE issues"@, c),
                    OpView::Run(create_issue_table_sql("issues"@), c),
                    OpView::Run(copy_sql("issues"@, "issues_rebuild_tmp"@, projected), c),
                    OpView::Run("DROP TABLE issues_rebuild_tmp"@, c),
                ]
            }
        },
    }
}

/// The `table_info` answer for `t`: its rows, or the failure's text (empty
/// when the answer is not reported).
pub open spec fn info_result(s: Snapshot, t: Seq<char>) -> Result<Seq<super::facts::ColumnInfo>, Seq<char>> {
    match find_info(s.table_infos@, t) {
        Some(info) => match info.rows {
            Ok(rows) => Ok(rows@),
            Err(m) => Err(m@),
        },
        None => Err(Seq::empty()),
    }
}

/// Rebuilds the issues table with the canonical columns in canonical order,
/// keeping the data of the columns it already has, with foreign keys off and
/// in one transaction.
pub open spec fn rebuild_issues_plan(s: Snapshot) -> Seq<OpView> {
    match info_result(s, "issues"@) {
        Err(m) => seq![OpView::Raise(ErrorView::Database(m), Seq::empty())],
        Ok(rows) => {
            let existing = text_names(rows);
            if existing.len() == 0 {
                Seq::empty()
            } else {
                seq![run("PRAGMA foreign_keys = OFF"@), run("BEGIN EXCLUSIVE"@)]
                    + rebuild_issues_body(s, existing) + seq![
                    run("COMMIT"@),
                    run("PRAGMA foreign_keys = ON"@),
                ]
            }
        },
    }
}

/// The blocked-issues cache exists but lacks one of its columns.
pub open spec fn blocked_cache_stale(s: Snapshot) -> bool {
    table_exists(s, "blocked_issues_cache"@) && !(column_exists(
        s,
        "blocked_issues_cache"@,
        "blocked_at"@,
    ) && column_exists(s, "blocked_issues_cache"@, "blocked_by"@) && column_exists(
        s,
        "blocked_issues_cache"@,
        "issue_id"@,
    ))
}

/// Repairs that must run before the schema statements: legacy key-value
/// tables, a stale blocked-issues cache, an issues table whose columns are
/// out of order (rebuilt) or missing (added), and missing columns of the
/// other tables.
pub open spec fn pre_schema_plan(s: Snapshot) -> Seq<OpView> {
    (if kv_needs_rebuild(s, "config"@, "idx_config_key"@) {
        kv_rebuild_plan("config"@)
    } else {
        Seq::empty()
    }) + (if kv_needs_rebuild(s, "metadata"@, "idx_metadata_key"@) {
        kv_rebuild_plan("metadata"@)
    } else {
        Seq::empty()
    }) + (if blocked_cache_stale(s) {
        seq![run("DROP TABLE IF EXISTS blocked_issues_cache"@)]
    } else {
        Seq::empty()
    }) + (if issues_column_order_matches(s) {
        ensure_columns_plan(s, "issues"@, issue_columns())
    } else {
        rebuild_issues_plan(s)
    }) + ensure_columns_plan(s, "dependencies"@, dependency_columns()) + ensure_columns_plan(
        s,
        "comments"@,
        comment_columns(),
    ) + ensure_columns_plan(s, "events"@, event_columns())
}

/// The schema statements.
pub open spec fn schema_plan() -> Seq<OpView> {
    batch(sql_statements(SCHEMA_SQL@))
}

/// Recreates the blocked-issues cache in one transaction.
pub open spec fn blocked_cache_plan() -> Seq<OpView> {
    let c = FailView::Cleanup(seq!["ROLLBACK"@]);
    seq![
        run("BEGIN IMMEDIATE"@),
        OpView::Run("DROP TABLE IF EXISTS blocked_issues_cache"@, c),
        OpView::Run(BLOCKED_CACHE_TABLE_SQL@, c),
        OpView::Run(
            "CREATE INDEX IF NOT EXISTS idx_blocked_cache_blocked_at ON blocked_issues_cache(blocked_at)"@,
            c,
        ),
        run("COMMIT"@),
    ]
}

/// Recreates the ready-work index.
pub open spec fn ready_index_plan() -> Seq<OpView> {
    seq![run("DROP INDEX IF EXISTS idx_issues_ready"@), run(READY_INDEX_SQL@)]
}

/// The upgrades that depend on the declared schema version `version`,
/// skipped when the issues table was just rebuilt.
pub open spec fn version_upgrade_plan(s: Snapshot, issues_rebuilt: bool, version: i64) -> Seq<OpView> {
    (if !issues_rebuilt && version < 3 && table_exists(s, "issues"@) && filter_columns_need_rebuild(
        s,
    ) {
        seq![
            run("UPDATE issues SET ephemeral = 0 WHERE ephemeral IS NULL"@),
            run("UPDATE issues SET pinned = 0 WHERE pinned IS NULL"@),
            run("UPDATE issues SET is_template = 0 WHERE is_template IS NULL"@),
        ] + rebuild_issues_plan(s) + ready_index_plan()
    } else {
        Seq::empty()
    }) + (if !issues_rebuilt && version < 4 && table_exists(s, "issues"@) {
        ready_index_plan()
    } else {
        Seq::empty()
    })
}

/// The indexes of the dependency, label, comment and event tables that
/// exist.
pub open spec fn table_index_plan(s: Snapshot) -> Seq<OpView> {
    (if table_exists(s, "dependencies"@) {
        batch(sql_statements(DEPENDENCY_INDEX_SQL@)) + if column_exists(
            s,
            "dependencies"@,
            "thread_id"@,
        ) {
            seq![
                run(
                    "CREATE INDEX IF NOT EXISTS idx_dependencies_thread ON dependencies(thread_id) WHERE thread_id != ''"@,
                ),
            ]
        } else {
            Seq::empty()
        }
    } else {
        Seq::empty()
    }) + (if table_exists(s, "labels"@) {
        batch(sql_statements(LABEL_INDEX_SQL@))
    } else {
        Seq::empty()
    }) + (if table_exists(s, "comments"@) {
        seq![run("CREATE INDEX IF NOT EXISTS idx_comments_issue ON comments(issue_id)"@)]
    } else {
        Seq::empty()
    }) + (if table_exists(s, "events"@) {
        batch(sql_statements(EVENT_INDEX_SQL@))
    } else {
        Seq::empty()
    })
}

/// The migrations that follow the reading of the declared schema version
/// `version`.
pub open spec fn versioned_plan(s: Snapshot, issues_rebuilt: bool, version: i64) -> Seq<OpView> {
    version_upgrade_plan(s, issues_rebuilt, version) + batch(sql_statements(MIGRATION_INDEX_SQL@))
        + batch(sql_statements(LEGACY_INDEX_DROP_SQL@)) + table_index_plan(s)
}

/// Upgrades of an existing database: the blocked-issues cache layout, the
/// compaction level backfill, the version-dependent migrations (after
/// reading the declared version, whose failure stops the plan) and the
/// indexes that older databases lack.
pub open spec fn migration_plan(s: Snapshot, issues_rebuilt: bool) -> Seq<OpView> {
    (if !(column_exists(s, "blocked_issues_cache"@, "blocked_by"@) && column_exists(
        s,
        "blocked_issues_cache"@,
        "blocked_at"@,
    ) && column_exists(s, "blocked_issues_cache"@, "issue_id"@)) {
        blocked_cache_plan()
    } else {
        Seq::empty()
    }) + (if column_exists(s, "issues"@, "compaction_level"@) {
        seq![run("UPDATE issues SET compaction_level = 0 WHERE compaction_level IS NULL"@)]
    } else {
        Seq::empty()
    }) + match s.user_version {
        Err(m) => seq![OpView::Raise(ErrorView::Database(m@), Seq::empty())],
        Ok(v) => versioned_plan(s, issues_rebuilt, flag(v)),
    }
}

/// The statement that declares the current schema version.
pub open spec fn stamp_plan() -> Seq<OpView> {
    seq![run("PRAGMA user_version = 4"@)]
}

/// Connection settings, given the journal mode the database reports.
pub open spec fn pragma_plan(journal_mode: Seq<char>) -> Seq<OpView> {
    (if eq_ignore_ascii_case(journal_mode, "wal"@) {
        Seq::empty()
    } else {
        seq![run("PRAGMA journal_mode = WAL"@)]
    }) + seq![
        run("PRAGMA foreign_keys = ON"@),
        run("PRAGMA synchronous = NORMAL"@),
        run("PRAGMA temp_store = MEMORY"@),
        run("PRAGMA cache_size = -8000"@),
        run("PRAGMA journal_size_limit = 33554432"@),
        run("PRAGMA wal_autocheckpoint = 0"@),
    ]
}

/// A checkpoint whose failure is ignored.
pub open spec fn checkpoint_plan() -> Seq<OpView> {
    seq![OpView::Run("PRAGMA wal_checkpoint(TRUNCATE)"@, FailView::Ignore)]
}


// Building scripts.

fn text(s: &str) -> (r: String)
    ensures
        r@ == s@,
{
    s.to_owned()
}

fn cat(a: &str, b: &str) -> (r: String)
    ensures
        r@ == a@ + b@,
{
    let mut r = a.to_owned();
    r.append(b);
    r
}

fn cat3(a: &str, b: &str, c: &str) -> (r: String)
    ensures
        r@ == a@ + b@ + c@,
{
    let mut r = a.to_owned();
    r.append(b);
    r.append(c);
    r
}

fn run_op(sql: String) -> (op: Op)
    ensures
        op_view(op) == run(sql@),
{
    Op::Run { sql, on_failure: OnFailure::Abort }
}

fn guarded_op(sql: String, cleanup: Vec<String>) -> (op: Op)
    ensures
        op_view(op) == OpView::Run(sql@, FailView::Cleanup(texts(cleanup@))),
{
    Op::Run { sql, on_failure: OnFailure::Cleanup(cleanup) }
}

fn push_op(ops: &mut Vec<Op>, op: Op)
    ensures
        ops_view(final(ops)@) == ops_view(old(ops)@).push(op_view(op)),
{
    let ghost v = op_view(op);
    ops.push(op);
    assert(ops_view(ops@) =~= ops_view(old(ops)@).push(v));
}

pub(crate) fn extend_ops(ops: &mut Vec<Op>, more: Vec<Op>)
    ensures
        ops_view(final(ops)@) == ops_view(old(ops)@) + ops_view(more@),
{
    let mut more = more;
    let ghost m = more@;
    ops.append(&mut more);
    assert(ops_view(ops@) =~= ops_view(old(ops)@) + ops_view(m));
}

fn strings(list: Vec<&str>) -> (r: Vec<String>)
    ensures
        texts(r@) == str_views(list@),
{
    let mut r: Vec<String> = Vec::new();
    let mut i: usize = 0;
    while i < list.len()
        invariant
            i <= list.len(),
            texts(r@) == str_views(list@.subrange(0, i as int)),
        decreases list.len() - i,
    {
        let ghost before = r@;
        let t = text(list[i]);
        r.push(t);
        assert(r@ == before.push(t));
        assert(texts(r@) =~= texts(before).push(list@[i as int]@));
        assert(str_views(list@.subrange(0, i + 1)) =~= str_views(list@.subrange(0, i as int)).push(
            list@[i as int]@,
        ));
        i += 1;
    }
    assert(list@.subrange(0, list.len() as int) =~= list@);
    r
}

/// Appends the statements of `sql`, each skipping stale index failures.
pub(crate) fn push_batch(ops: &mut Vec<Op>, sql: &str)
    ensures
        ops_view(final(ops)@) == ops_view(old(ops)@) + batch(sql_statements(sql@)),
{
    let stmts = split_sql_statements(sql);
    let ghost sv = views(stmts@);
    let mut k: usize = 0;
    let ghost start = ops_view(ops@);
    while k < stmts.len()
        invariant
            k <= stmts.len(),
            sv == views(stmts@),
            sv == sql_statements(sql@),
            start == ops_view(old(ops)@),
            ops_view(ops@) == start + batch(sv.subrange(0, k as int)),
        decreases stmts.len() - k,
    {
        let op = Op::Run { sql: stmts[k].clone(), on_failure: OnFailure::SkipStaleIndex };
        push_op(ops, op);
        assert(batch(sv.subrange(0, k + 1)) =~= batch(sv.subrange(0, k as int)).push(
            OpView::Run(sv[k as int], FailView::SkipStaleIndex),
        ));
        k += 1;
    }
    assert(sv.subrange(0, stmts.len() as int) =~= sv);
}

/// `parts` joined with `sep`.
pub fn join_exec(parts: &Vec<String>, sep: &str) -> (r: String)
    ensures
        r@ == join(texts(parts@), sep@),
{
    let ghost pv = texts(parts@);
    let mut r = String::new();
    let mut i: usize = 0;
    assert(pv.subrange(0, 0) =~= Seq::<Seq<char>>::empty());
    while i < parts.len()
        invariant
            i <= parts.len(),
            pv == texts(parts@),
            r@ == join(pv.subrange(0, i as int), sep@),
        decreases parts.len() - i,
    {
        assert(pv.subrange(0, i + 1).drop_last() =~= pv.subrange(0, i as int));
        if i > 0 {
            r.append(sep);
        }
        r.append(parts[i].as_str());
        assert(pv.subrange(0, i + 1).last() == pv[i as int]);
        if i == 0 {
            assert(r@ =~= join(pv.subrange(0, i + 1), sep@));
        }
        i += 1;
    }
    assert(pv.subrange(0, parts.len() as int) =~= pv);
    r
}

fn rollback_exec() -> (v: Vec<String>)
    ensures
        texts(v@) == seq!["ROLLBACK"@],
{
    let list = vec!["ROLLBACK"];
    assert(str_views(list@) =~= seq!["ROLLBACK"@]);
    strings(list)
}

/// The script of [`kv_rebuild_plan`].
pub fn kv_rebuild_ops(t: &str) -> (ops: Vec<Op>)
    ensures
        ops_view(ops@) == kv_rebuild_plan(t@),
{
    let tmp = cat(t, "_rebuild_tmp");
    let mut ops: Vec<Op> = Vec::new();
    push_op(&mut ops, run_op(text("BEGIN EXCLUSIVE")));
    push_op(&mut ops, guarded_op(cat("DROP TABLE IF EXISTS ", tmp.as_str()), rollback_exec()));
    push_op(&mut ops, guarded_op(cat3("CREATE TABLE ", tmp.as_str(), KV_TMP_COLUMNS), rollback_exec()));
    let mut copy = cat3("INSERT INTO ", tmp.as_str(), KV_COPY_MIDDLE);
    copy.append(t);
    push_op(&mut ops, guarded_op(copy, rollback_exec()));
    push_op(&mut ops, guarded_op(cat("DROP TABLE ", t), rollback_exec()));
    let mut rename = cat3("ALTER TABLE ", tmp.as_str(), " RENAME TO ");
    rename.append(t);
    push_op(&mut ops, guarded_op(rename, rollback_exec()));
    push_op(&mut ops, run_op(text("COMMIT")));
    assert(ops_view(ops@) =~= kv_rebuild_plan(t@));
    ops
}

/// The script of [`ensure_columns_plan`].
pub fn ensure_columns_ops(s: &Snapshot, t: &str, cols: &Vec<(&str, &str)>) -> (ops: Vec<Op>)
    ensures
        ops_view(ops@) == ensure_columns_plan(*s, t@, pair_views(cols@)),
{
    let mut ops: Vec<Op> = Vec::new();
    if !table_exists_exec(s, t) {
        assert(ops_view(ops@) =~= Seq::<OpView>::empty());
        return ops;
    }
    let ghost cv = pair_views(cols@);
    let mut k: usize = 0;
    assert(cv.subrange(0, 0) =~= Seq::<(Seq<char>, Seq<char>)>::empty());
    assert(ops_view(ops@) =~= Seq::<OpView>::empty());
    while k < cols.len()
        invariant
            k <= cols.len(),
            cv == pair_views(cols@),
            ops_view(ops@) == missing_columns_plan(*s, t@, cv.subrange(0, k as int)),
        decreases cols.len() - k,
    {
        assert(cv.subrange(0, k + 1).drop_last() =~= cv.subrange(0, k as int));
        assert(cv.subrange(0, k + 1).last() == cv[k as int]);
        let (name, definition) = cols[k];
        if !column_exists_exec(s, t, name) {
            let mut sql = cat3("ALTER TABLE ", t, " ADD COLUMN ");
            sql.append(name);
            sql.append(" ");
            sql.append(definition);
            push_op(&mut ops, run_op(sql));
        }
        k += 1;
    }
    assert(cv.subrange(0, cols.len() as int) =~= cv);
    ops
}

/// The items of the canonical issues table (see [`issue_table_items`]).
fn issue_table_items_exec() -> (r: Vec<String>)
    ensures
        texts(r@) == issue_table_items(),
{
    let cols = canonical_issue_columns_list();
    let ghost cv = pair_views(cols@);
    let mut r: Vec<String> = Vec::new();
    let mut k: usize = 0;
    while k < cols.len()
        invariant
            k <= cols.len(),
            cv == pair_views(cols@),
            cv == canonical_issue_columns(),
            texts(r@) == column_definitions(cv.subrange(0, k as int)),
        decreases cols.len() - k,
    {
        let ghost before = r@;
        let item = cat3(cols[k].0, " ", cols[k].1);
        r.push(item);
        assert(r@ == before.push(item));
        assert(cv[k as int] == (cols@[k as int].0@, cols@[k as int].1@));
        assert(texts(r@) =~= texts(before).push(item@));
        assert(column_definitions(cv.subrange(0, k + 1)) =~= column_definitions(
            cv.subrange(0, k as int),
        ).push(cv[k as int].0 + " "@ + cv[k as int].1));
        k += 1;
    }
    assert(cv.subrange(0, cols.len() as int) =~= cv);
    r.push(text(ISSUES_CLOSED_AT_CHECK));
    assert(texts(r@) =~= issue_table_items());
    r
}

fn create_issue_table_exec(t: &str, items: &Vec<String>) -> (r: String)
    requires
        texts(items@) == issue_table_items(),
    ensures
        r@ == create_issue_table_sql(t@),
{
    let mut r = cat3("CREATE TABLE ", t, " (");
    r.append(join_exec(items, ", ").as_str());
    r.append(")");
    r
}

fn contains_text(v: &Vec<String>, t: &str) -> (r: bool)
    ensures
        r == texts(v@).contains(t@),
{
    let mut i: usize = 0;
    while i < v.len()
        invariant
            i <= v.len(),
            forall|j: int| 0 <= j < i ==> (#[trigger] v@[j])@ != t@,
        decreases v.len() - i,
    {
        if text_eq(v[i].as_str(), t) {
            assert(texts(v@)[i as int] == t@);
            return true;
        }
        i += 1;
    }
    assert forall|j: int| 0 <= j < texts(v@).len() implies texts(v@)[j] != t@ by {
        assert(texts(v@)[j] == v@[j]@);
    }
    false
}

fn projected_exec(existing: &Vec<String>) -> (r: Vec<String>)
    ensures
        texts(r@) == projected_columns(canonical_issue_columns(), texts(existing@)),
{
    let cols = canonical_issue_columns_list();
    let ghost cv = pair_views(cols@);
    let mut r: Vec<String> = Vec::new();
    let mut k: usize = 0;
    assert(cv.subrange(0, 0) =~= Seq::<(Seq<char>, Seq<char>)>::empty());
    assert(texts(r@) =~= Seq::<Seq<char>>::empty());
    while k < cols.len()
        invariant
            k <= cols.len(),
            cv == pair_views(cols@),
            cv == canonical_issue_columns(),
            texts(r@) == projected_columns(cv.subrange(0, k as int), texts(existing@)),
        decreases cols.len() - k,
    {
        assert(cv.subrange(0, k + 1).drop_last() =~= cv.subrange(0, k as int));
        assert(cv.subrange(0, k + 1).last() == cv[k as int]);
        if contains_text(existing, cols[k].0) {
            let ghost before = texts(r@);
            r.push(text(cols[k].0));
            assert(texts(r@) =~= before.push(cv[k as int].0));
        }
        k += 1;
    }
    assert(cv.subrange(0, cols.len() as int) =~= cv);
    r
}

fn copy_exec(to: &str, from: &str, cols: &Vec<String>) -> (r: String)
    ensures
        r@ == copy_sql(to@, from@, texts(cols@)),
{
    let joined = join_exec(cols, ", ");
    let mut r = cat3("INSERT INTO ", to, " (");
    r.append(joined.as_str());
    r.append(") SELECT ");
    r.append(joined.as_str());
    r.append(" FROM ");
    r.append(from);
    r
}

fn issues_rebuild_cleanup_exec() -> (v: Vec<String>)
    ensures
        texts(v@) == issues_rebuild_cleanup(),
{
    let list = vec!["ROLLBACK", "PRAGMA foreign_keys = ON"];
    assert(str_views(list@) =~= issues_rebuild_cleanup());
    strings(list)
}

/// The script of [`rebuild_issues_body`].
fn rebuild_issues_body_ops(s: &Snapshot, existing: &Vec<String>) -> (ops: Vec<Op>)
    ensures
        ops_view(ops@) == rebuild_issues_body(*s, texts(existing@)),
{
    let mut ops: Vec<Op> = Vec::new();
    let names = match &s.issues_indexes {
        Err(m) => {
            push_op(
                &mut ops,
                Op::Raise {
                    error: BeadsError::Database(m.clone()),
                    cleanup: issues_rebuild_cleanup_exec(),
                },
            );
            assert(ops_view(ops@) =~= rebuild_issues_body(*s, texts(existing@)));
            return ops;
        },
        Ok(names) => names,
    };
    let ghost c = FailView::Cleanup(issues_rebuild_cleanup());
    let ghost nv = texts(names@);
    let mut k: usize = 0;
    assert(ops_view(ops@) =~= Seq::<OpView>::empty());
    while k < names.len()
        invariant
            k <= names.len(),
            nv == texts(names@),
            c == FailView::Cleanup(issues_rebuild_cleanup()),
            ops_view(ops@) == nv.subrange(0, k as int).map_values(
                |n: Seq<char>| OpView::Run(drop_index_sql(n), c),
            ),
        decreases names.len() - k,
    {
        push_op(
            &mut ops,
            guarded_op(
                cat3("DROP INDEX IF EXISTS \"", names[k].as_str(), "\""),
                issues_rebuild_cleanup_exec(),
            ),
        );
        assert(ops_view(ops@) =~= nv.subrange(0, k + 1).map_values(
            |n: Seq<char>| OpView::Run(drop_index_sql(n), c),
        ));
        k += 1;
    }
    assert(nv.subrange(0, names.len() as int) =~= nv);
    let items = issue_table_items_exec();
    push_op(
        &mut ops,
        guarded_op(text("DROP TABLE IF EXISTS issues_rebuild_tmp"), issues_rebuild_cleanup_exec()),
    );
    push_op(
        &mut ops,
        guarded_op(
            create_issue_table_exec("issues_rebuild_tmp", &items),
            issues_rebuild_cleanup_exec(),
        ),
    );
    let projected = projected_exec(existing);
    if projected.len() == 0 {
        push_op(
            &mut ops,
            Op::Raise {
                error: BeadsError::Config(text(NO_CANONICAL_COLUMNS)),
                cleanup: issues_rebuild_cleanup_exec(),
            },
        );
    } else {
        push_op(
            &mut ops,
            guarded_op(
                copy_exec("issues_rebuild_tmp", "issues", &projected),
                issues_rebuild_cleanup_exec(),
            ),
        );
        push_op(&mut ops, guarded_op(text("DROP TABLE issues"), issues_rebuild_cleanup_exec()));
        push_op(
            &mut ops,
            guarded_op(create_issue_table_exec("issues", &items), issues_rebuild_cleanup_exec()),
        );
        push_op(
            &mut ops,
            guarded_op(
                copy_exec("issues", "issues_rebuild_tmp", &projected),
                issues_rebuild_cleanup_exec(),
            ),
        );
        push_op(
            &mut ops,
            guarded_op(text("DROP TABLE issues_rebuild_tmp"), issues_rebuild_cleanup_exec()),
        );
    }
    assert(ops_view(ops@) =~= rebuild_issues_body(*s, texts(existing@)));
    ops
}

/// The `table_info` answer for `t` (see [`info_result`]).
fn info_result_exec<'a>(s: &'a Snapshot, t: &str) -> (r: Result<&'a Vec<super::facts::ColumnInfo>, String>)
    ensures
        match info_result(*s, t@) {
            Ok(rows) => r matches Ok(v) && v@ == rows,
            Err(m) => r matches Err(e) && e@ == m,
        },
{
    let infos = &s.table_infos;
    let mut i: usize = 0;
    while i < infos.len()
        invariant
            i <= infos.len(),
            infos@ == s.table_infos@,
            forall|j: int| 0 <= j < i ==> (#[trigger] infos@[j]).table@ != t@,
        decreases infos.len() - i,
    {
        if text_eq(infos[i].table.as_str(), t) {
            proof {
                super::facts::lemma_find_info_skip(infos@, i as int, t@);
                assert(infos@.subrange(i as int, infos@.len() as int)[0] == infos@[i as int]);
            }
            return match &infos[i].rows {
                Ok(rows) => Ok(rows),
                Err(m) => Err(m.clone()),
            };
        }
        i += 1;
    }
    proof {
        super::facts::lemma_find_info_none(infos@, t@);
    }
    Err(String::new())
}

/// The script of [`rebuild_issues_plan`].
pub fn rebuild_issues_ops(s: &Snapshot) -> (ops: Vec<Op>)
    ensures
        ops_view(ops@) == rebuild_issues_plan(*s),
{
    let mut ops: Vec<Op> = Vec::new();
    let rows = match info_result_exec(s, "issues") {
        Err(m) => {
            let cleanup: Vec<String> = Vec::new();
            assert(texts(cleanup@) =~= Seq::<Seq<char>>::empty());
            push_op(&mut ops, Op::Raise { error: BeadsError::Database(m), cleanup });
            assert(ops_view(ops@) =~= rebuild_issues_plan(*s));
            return ops;
        },
        Ok(rows) => rows,
    };
    let existing = text_names_exec(rows);
    assert(texts(existing@) == existing@.map_values(|x: String| x@));
    if existing.len() == 0 {
        assert(texts(existing@).len() == 0);
        assert(ops_view(ops@) =~= rebuild_issues_plan(*s));
        return ops;
    }
    push_op(&mut ops, run_op(text("PRAGMA foreign_keys = OFF")));
    push_op(&mut ops, run_op(text("BEGIN EXCLUSIVE")));
    extend_ops(&mut ops, rebuild_issues_body_ops(s, &existing));
    push_op(&mut ops, run_op(text("COMMIT")));
    push_op(&mut ops, run_op(text("PRAGMA foreign_keys = ON")));
    assert(ops_view(ops@) =~= rebuild_issues_plan(*s));
    ops
}

/// Whether the blocked-issues cache must be dropped (see
/// [`blocked_cache_stale`]).
fn blocked_cache_stale_exec(s: &Snapshot) -> (r: bool)
    ensures
        r == blocked_cache_stale(*s),
{
    table_exists_exec(s, "blocked_issues_cache") && !(column_exists_exec(
        s,
        "blocked_issues_cache",
        "blocked_at",
    ) && column_exists_exec(s, "blocked_issues_cache", "blocked_by") && column_exists_exec(
        s,
        "blocked_issues_cache",
        "issue_id",
    ))
}

/// The script of [`pre_schema_plan`], and whether it rebuilds the issues
/// table.
pub fn pre_schema_ops(s: &Snapshot) -> (r: (Vec<Op>, bool))
    ensures
        ops_view(r.0@) == pre_schema_plan(*s),
        r.1 == !issues_column_order_matches(*s),
{
    let mut ops: Vec<Op> = Vec::new();
    if kv_needs_rebuild_exec(s, "config", "idx_config_key") {
        extend_ops(&mut ops, kv_rebuild_ops("config"));
    }
    if kv_needs_rebuild_exec(s, "metadata", "idx_metadata_key") {
        extend_ops(&mut ops, kv_rebuild_ops("metadata"));
    }
    if blocked_cache_stale_exec(s) {
        push_op(&mut ops, run_op(text("DROP TABLE IF EXISTS blocked_issues_cache")));
    }
    let rebuilt = !issues_column_order_matches_exec(s);
    if rebuilt {
        extend_ops(&mut ops, rebuild_issues_ops(s));
    } else {
        extend_ops(&mut ops, ensure_columns_ops(s, "issues", &issue_columns_list()));
    }
    extend_ops(&mut ops, ensure_columns_ops(s, "dependencies", &dependency_columns_list()));
    extend_ops(&mut ops, ensure_columns_ops(s, "comments", &comment_columns_list()));
    extend_ops(&mut ops, ensure_columns_ops(s, "events", &event_columns_list()));
    assert(ops_view(ops@) =~= pre_schema_plan(*s));
    (ops, rebuilt)
}

/// The script of [`schema_plan`].
pub fn schema_ops() -> (ops: Vec<Op>)
    ensures
        ops_view(ops@) == schema_plan(),
{
    let mut ops: Vec<Op> = Vec::new();
    push_batch(&mut ops, SCHEMA_SQL);
    assert(ops_view(ops@) =~= schema_plan());
    ops
}

fn blocked_cache_ops() -> (ops: Vec<Op>)
    ensures
        ops_view(ops@) == blocked_cache_plan(),
{
    let mut ops: Vec<Op> = Vec::new();
    push_op(&mut ops, run_op(text("BEGIN IMMEDIATE")));
    push_op(
        &mut ops,
        guarded_op(text("DROP TABLE IF EXISTS blocked_issues_cache"), rollback_exec()),
    );
    push_op(&mut ops, guarded_op(text(BLOCKED_CACHE_TABLE_SQL), rollback_exec()));
    push_op(
        &mut ops,
        guarded_op(
            text(
                "CREATE INDEX IF NOT EXISTS idx_blocked_cache_blocked_at ON blocked_issues_cache(blocked_at)",
            ),
            rollback_exec(),
        ),
    );
    push_op(&mut ops, run_op(text("COMMIT")));
    assert(ops_view(ops@) =~= blocked_cache_plan());
    ops
}

fn push_ready_index(ops: &mut Vec<Op>)
    ensures
        ops_view(final(ops)@) == ops_view(old(ops)@) + ready_index_plan(),
{
    push_op(ops, run_op(text("DROP INDEX IF EXISTS idx_issues_ready")));
    push_op(ops, run_op(text(READY_INDEX_SQL)));
    assert(ops_view(ops@) =~= ops_view(old(ops)@) + ready_index_plan());
}

fn version_upgrade_ops(s: &Snapshot, issues_rebuilt: bool, version: i64) -> (ops: Vec<Op>)
    ensures
        ops_view(ops@) == version_upgrade_plan(*s, issues_rebuilt, version),
{
    let mut ops: Vec<Op> = Vec::new();
    let has_issues = table_exists_exec(s, "issues");
    if !issues_rebuilt && version < 3 && has_issues && filter_columns_need_rebuild_exec(s) {
        push_op(&mut ops, run_op(text("UPDATE issues SET ephemeral = 0 WHERE ephemeral IS NULL")));
        push_op(&mut ops, run_op(text("UPDATE issues SET pinned = 0 WHERE pinned IS NULL")));
        push_op(
            &mut ops,
            run_op(text("UPDATE issues SET is_template = 0 WHERE is_template IS NULL")),
        );
        extend_ops(&mut ops, rebuild_issues_ops(s));
        push_ready_index(&mut ops);
    }
    if !issues_rebuilt && version < 4 && has_issues {
        push_ready_index(&mut ops);
    }
    assert(ops_view(ops@) =~= version_upgrade_plan(*s, issues_rebuilt, version));
    ops
}

fn table_index_ops(s: &Snapshot) -> (ops: Vec<Op>)
    ensures
        ops_view(ops@) == table_index_plan(*s),
{
    let mut ops: Vec<Op> = Vec::new();
    if table_exists_exec(s, "dependencies") {
        push_batch(&mut ops, DEPENDENCY_INDEX_SQL);
        if column_exists_exec(s, "dependencies", "thread_id") {
            push_op(
                &mut ops,
                run_op(
                    text(
                        "CREATE INDEX IF NOT EXISTS idx_dependencies_thread ON dependencies(thread_id) WHERE thread_id != ''",
                    ),
                ),
            );
        }
    }
    if table_exists_exec(s, "labels") {
        push_batch(&mut ops, LABEL_INDEX_SQL);
    }
    if table_exists_exec(s, "comments") {
        push_op(
            &mut ops,
            run_op(text("CREATE INDEX IF NOT EXISTS idx_comments_issue ON comments(issue_id)")),
        );
    }
    if table_exists_exec(s, "events") {
        push_batch(&mut ops, EVENT_INDEX_SQL);
    }
    assert(ops_view(ops@) =~= table_index_plan(*s));
    ops
}

fn versioned_ops(s: &Snapshot, issues_rebuilt: bool, version: i64) -> (ops: Vec<Op>)
    ensures
        ops_view(ops@) == versioned_plan(*s, issues_rebuilt, version),
{
    let mut ops = version_upgrade_ops(s, issues_rebuilt, version);
    push_batch(&mut ops, MIGRATION_INDEX_SQL);
    push_batch(&mut ops, LEGACY_INDEX_DROP_SQL);
    extend_ops(&mut ops, table_index_ops(s));
    assert(ops_view(ops@) =~= versioned_plan(*s, issues_rebuilt, version));
    ops
}

/// The script of [`migration_plan`].
pub fn migration_ops(s: &Snapshot, issues_rebuilt: bool) -> (ops: Vec<Op>)
    ensures
        ops_view(ops@) == migration_plan(*s, issues_rebuilt),
{
    let mut ops: Vec<Op> = Vec::new();
    if !(column_exists_exec(s, "blocked_issues_cache", "blocked_by") && column_exists_exec(
        s,
        "blocked_issues_cache",
        "blocked_at",
    ) && column_exists_exec(s, "blocked_issues_cache", "issue_id")) {
        extend_ops(&mut ops, blocked_cache_ops());
    }
    if column_exists_exec(s, "issues", "compaction_level") {
        push_op(
            &mut ops,
            run_op(text("UPDATE issues SET compaction_level = 0 WHERE compaction_level IS NULL")),
        );
    }
    match &s.user_version {
        Err(m) => {
            let cleanup: Vec<String> = Vec::new();
            assert(texts(cleanup@) =~= Seq::<Seq<char>>::empty());
            push_op(&mut ops, Op::Raise { error: BeadsError::Database(m.clone()), cleanup });
        },
        Ok(v) => {
            let version: i64 = match v {
                Some(x) => *x,
                None => 0,
            };
            extend_ops(&mut ops, versioned_ops(s, issues_rebuilt, version));
        },
    }
    assert(ops_view(ops@) =~= migration_plan(*s, issues_rebuilt));
    ops
}

/// The script of [`stamp_plan`].
pub fn stamp_ops() -> (ops: Vec<Op>)
    ensures
        ops_view(ops@) == stamp_plan(),
{
    let mut ops: Vec<Op> = Vec::new();
    push_op(&mut ops, run_op(text("PRAGMA user_version = 4")));
    assert(ops_view(ops@) =~= stamp_plan());
    ops
}

/// The script of [`pragma_plan`].
pub fn pragma_ops(journal_mode: &str) -> (ops: Vec<Op>)
    ensures
        ops_view(ops@) == pragma_plan(journal_mode@),
{
    let mut ops: Vec<Op> = Vec::new();
    if !eq_ignore_ascii_case_exec(journal_mode, "wal") {
        push_op(&mut ops, run_op(text("PRAGMA journal_mode = WAL")));
    }
    push_op(&mut ops, run_op(text("PRAGMA foreign_keys = ON")));
    push_op(&mut ops, run_op(text("PRAGMA synchronous = NORMAL")));
    push_op(&mut ops, run_op(text("PRAGMA temp_store = MEMORY")));
    push_op(&mut ops, run_op(text("PRAGMA cache_size = -8000")));
    push_op(&mut ops, run_op(text("PRAGMA journal_size_limit = 33554432")));
    push_op(&mut ops, run_op(text("PRAGMA wal_autocheckpoint = 0")));
    assert(ops_view(ops@) =~= pragma_plan(journal_mode@));
    ops
}

/// The script of [`checkpoint_plan`].
pub fn checkpoint_ops() -> (ops: Vec<Op>)
    ensures
        ops_view(ops@) == checkpoint_plan(),
{
    let mut ops: Vec<Op> = Vec::new();
    push_op(
        &mut ops,
        Op::Run {
            sql: text("PRAGMA wal_checkpoint(TRUNCATE)"),
            on_failure: OnFailure::Ignore,
        },
    );
    assert(ops_view(ops@) =~= checkpoint_plan());
    ops
}

// Laws.

/// A rebuilt issues table has its columns in exactly the order that the
/// layout check expects, so a rebuild is never needed twice.
pub proof fn law_rebuilt_columns_follow_expected_order()
    ensures
        canonical_issue_columns().map_values(|p: (Seq<char>, Seq<char>)| p.0)
            == super::expected_issue_column_order(),
{
    assert(canonical_issue_columns().map_values(|p: (Seq<char>, Seq<char>)| p.0)
        =~= super::expected_issue_column_order());
}

/// Right after the issues table was rebuilt, no version upgrade touches it.
pub proof fn law_rebuilt_table_skips_version_upgrades(s: Snapshot, version: i64)
    ensures
        version_upgrade_plan(s, true, version) == Seq::<OpView>::empty(),
{
    assert(version_upgrade_plan(s, true, version) =~= Seq::<OpView>::empty());
}

/// A rebuild copies a column exactly when it is canonical and the old table
/// has it.
pub proof fn law_rebuild_copies_existing_canonical_columns(
    cols: Seq<(Seq<char>, Seq<char>)>,
    existing: Seq<Seq<char>>,
    c: Seq<char>,
)
    ensures
        projected_columns(cols, existing).contains(c) <==> (existing.contains(c) && exists|k: int|
            0 <= k < cols.len() && (#[trigger] cols[k]).0 == c),
    decreases cols.len(),
{
    let q = projected_columns(cols, existing);
    if cols.len() == 0 {
        assert(!q.contains(c));
    } else {
        let init = cols.drop_last();
        let last = cols.last();
        law_rebuild_copies_existing_canonical_columns(init, existing, c);
        let p = projected_columns(init, existing);
        if existing.contains(last.0) {
            assert(q == p.push(last.0));
        } else {
            assert(q == p);
        }
        if q.contains(c) {
            if p.contains(c) {
                let k = choose|k: int| 0 <= k < init.len() && (#[trigger] init[k]).0 == c;
                assert(cols[k] == init[k]);
            } else {
                let i = choose|i: int| 0 <= i < q.len() && q[i] == c;
                assert(existing.contains(last.0));
                if i < p.len() {
                    assert(q[i] == p[i]);
                }
                assert(i == p.len());
                assert(cols[cols.len() - 1].0 == c);
            }
        }
        if existing.contains(c) && exists|k: int| 0 <= k < cols.len() && (#[trigger] cols[k]).0 == c {
            let k = choose|k: int| 0 <= k < cols.len() && (#[trigger] cols[k]).0 == c;
            if k < cols.len() - 1 {
                assert(init[k] == cols[k]);
                assert(p.contains(c));
                let j = choose|j: int| 0 <= j < p.len() && p[j] == c;
                assert(q[j] == c);
            } else {
                assert(last.0 == c);
                assert(q[p.len() as int] == c);
            }
        }
    }
}

/// A key-value table is rebuilt in one transaction: every statement between
/// `BEGIN` and `COMMIT` rolls it back when it fails.
pub proof fn law_kv_rebuild_rolls_back_on_failure(t: Seq<char>)
    ensures
        kv_rebuild_plan(t).len() == 7,
        kv_rebuild_plan(t)[0] == run("BEGIN EXCLUSIVE"@),
        kv_rebuild_plan(t)[6] == run("COMMIT"@),
        forall|i: int|
            1 <= i < 6 ==> (#[trigger] kv_rebuild_plan(t)[i]) is Run && kv_rebuild_plan(t)[i]->Run_1
                == FailView::Cleanup(seq!["ROLLBACK"@]),
{
}

/// Every step of the issues-table rebuild, inside its transaction, rolls the
/// transaction back and turns foreign keys back on when it fails.
pub proof fn law_issues_rebuild_restores_foreign_keys(s: Snapshot, existing: Seq<Seq<char>>)
    ensures
        forall|i: int|
            0 <= i < rebuild_issues_body(s, existing).len() ==> match #[trigger] rebuild_issues_body(
                s,
                existing,
            )[i] {
                OpView::Run(_, f) => f == FailView::Cleanup(issues_rebuild_cleanup()),
                OpView::Raise(_, c) => c == issues_rebuild_cleanup(),
            },
        issues_rebuild_cleanup().last() == "PRAGMA foreign_keys = ON"@,
{
    let b = rebuild_issues_body(s, existing);
    let c = FailView::Cleanup(issues_rebuild_cleanup());
    match s.issues_indexes {
        Err(_) => {},
        Ok(names) => {
            let drops = texts(names@).map_values(|n: Seq<char>| OpView::Run(drop_index_sql(n), c));
            assert forall|i: int| 0 <= i < b.len() implies match #[trigger] b[i] {
                OpView::Run(_, f) => f == c,
                OpView::Raise(_, cl) => cl == issues_rebuild_cleanup(),
            } by {
                if i < drops.len() {
                    assert(b[i] == drops[i]);
                }
            }
        },
    }
}

/// The journal mode is switched to WAL exactly when the database does not
/// report WAL already (in any letter case).
pub proof fn law_wal_is_not_reasserted(journal_mode: Seq<char>)
    ensures
        eq_ignore_ascii_case(journal_mode, "wal"@) <==> pragma_plan(journal_mode)[0] != run(
            "PRAGMA journal_mode = WAL"@,
        ),
        pragma_plan(journal_mode).len() == if eq_ignore_ascii_case(journal_mode, "wal"@) {
            6int
        } else {
            7int
        },
{
    reveal_strlit("PRAGMA journal_mode = WAL");
    reveal_strlit("PRAGMA foreign_keys = ON");
    if eq_ignore_ascii_case(journal_mode, "wal"@) {
        assert(pragma_plan(journal_mode)[0] == run("PRAGMA foreign_keys = ON"@));
        assert("PRAGMA foreign_keys = ON"@[7] != "PRAGMA journal_mode = WAL"@[7]);
    }
}

proof fn lemma_present_columns_need_nothing(
    s: Snapshot,
    t: Seq<char>,
    cols: Seq<(Seq<char>, Seq<char>)>,
)
    requires
        super::facts::has_listed_columns(s, t, cols),
    ensures
        missing_columns_plan(s, t, cols) == Seq::<OpView>::empty(),
    decreases cols.len(),
{
    if cols.len() > 0 {
        let init = cols.drop_last();
        assert forall|k: int| 0 <= k < init.len() implies column_exists(s, t, (#[trigger] init[k]).0) by {
            assert(init[k] == cols[k]);
        }
        lemma_present_columns_need_nothing(s, t, init);
        assert(column_exists(s, t, cols[cols.len() - 1].0));
    }
}

/// Repairs are needed once: on a layout that has been repaired (key-value
/// tables without primary keys and with their indexes, an intact
/// blocked-issues cache, issue columns in canonical order, and every listed
/// column present) the repairs plan nothing.
pub proof fn law_repaired_layout_needs_no_repairs(s: Snapshot)
    requires
        !kv_needs_rebuild(s, "config"@, "idx_config_key"@),
        !kv_needs_rebuild(s, "metadata"@, "idx_metadata_key"@),
        !blocked_cache_stale(s),
        issues_column_order_matches(s),
        super::facts::has_listed_columns(s, "issues"@, issue_columns()),
        super::facts::has_listed_columns(s, "dependencies"@, dependency_columns()),
        super::facts::has_listed_columns(s, "comments"@, comment_columns()),
        super::facts::has_listed_columns(s, "events"@, event_columns()),
    ensures
        pre_schema_plan(s) == Seq::<OpView>::empty(),
{
    lemma_present_columns_need_nothing(s, "issues"@, issue_columns());
    lemma_present_columns_need_nothing(s, "dependencies"@, dependency_columns());
    lemma_present_columns_need_nothing(s, "comments"@, comment_columns());
    lemma_present_columns_need_nothing(s, "events"@, event_columns());
    assert(pre_schema_plan(s) =~= Seq::<OpView>::empty());
}

/// A database that declares the current version gets no version upgrade.
pub proof fn law_current_version_needs_no_upgrades(s: Snapshot, issues_rebuilt: bool, version: i64)
    requires
        version >= 4,
    ensures
        version_upgrade_plan(s, issues_rebuilt, version) == Seq::<OpView>::empty(),
{
    assert(version_upgrade_plan(s, issues_rebuilt, version) =~= Seq::<OpView>::empty());
}

/// The rebuilt issues table is the identifier and the title placed around
/// the columns that repairs add to an older table, with the same
/// definitions; so a rebuilt table has every column that the repairs would
/// add.
pub proof fn law_rebuilt_table_holds_the_repair_columns()
    ensures
        canonical_issue_columns() == seq![
            ("id"@, "TEXT PRIMARY KEY"@),
            issue_columns()[0],
            ("title"@, "TEXT NOT NULL CHECK(length(title) <= 500)"@),
        ] + issue_columns().drop_first(),
        forall|k: int|
            0 <= k < issue_columns().len() ==> canonical_issue_columns().contains(
                #[trigger] issue_columns()[k],
            ),
{
    let head = seq![
        ("id"@, "TEXT PRIMARY KEY"@),
        issue_columns()[0],
        ("title"@, "TEXT NOT NULL CHECK(length(title) <= 500)"@),
    ];
    assert(canonical_issue_columns() =~= head + issue_columns().drop_first());
    assert forall|k: int| 0 <= k < issue_columns().len() implies canonical_issue_columns().contains(
        #[trigger] issue_columns()[k],
    ) by {
        if k == 0 {
            assert(canonical_issue_columns()[1] == issue_columns()[0]);
        } else {
            assert(canonical_issue_columns()[k + 2] == issue_columns()[k]);
        }
    }
}

/// A database with an issues table that declares a version below 4 (3
/// included) and whose issues table was not just rebuilt gets its ready
/// index dropped and recreated, as the last steps of its version upgrades.
pub proof fn law_versions_below_four_recreate_the_ready_index(s: Snapshot, version: i64)
    requires
        table_exists(s, "issues"@),
        version < 4,
    ensures
        version_upgrade_plan(s, false, version).len() >= 2,
        version_upgrade_plan(s, false, version)[version_upgrade_plan(s, false, version).len() - 2]
            == run("DROP INDEX IF EXISTS idx_issues_ready"@),
        version_upgrade_plan(s, false, version).last() == run(READY_INDEX_SQL@),
{
}

} // verus!
