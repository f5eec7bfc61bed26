//! Database schema maintenance: the statements that create and migrate the
//! schema, and the decisions taken from what the database reports.
//!
//! The database itself stays with the caller. The library inspects nothing
//! and executes nothing: it plans statements from the facts the caller
//! reports (see [`facts`]) and drives their execution step by step (see
//! [`script`] and [`driver`]).

use vstd::prelude::*;

pub mod driver;
pub mod facts;
pub mod plan;
pub mod script;

verus! {

/// The schema version that a database holding the full schema declares.
pub const CURRENT_SCHEMA_VERSION: i32 = 4;

/// The constraint tying `closed_at` to the status of an issue.
pub const ISSUES_CLOSED_AT_CHECK: &'static str = "CHECK ((status = 'closed' AND closed_at IS NOT NULL) OR (status = 'tombstone') OR (status NOT IN ('closed', 'tombstone') AND closed_at IS NULL))";

/// The complete SQL schema. Every statement is idempotent (`IF NOT EXISTS`).
pub const SCHEMA_SQL: &'static str = r"
    -- Issues table
    -- Note: TEXT fields use DEFAULT '' for bd (Go) compatibility.
    -- bd's sql.Scan doesn't handle NULL well when scanning into string fields.
    -- Closed-at invariant is enforced by the CHECK clause below.
    CREATE TABLE IF NOT EXISTS issues (
        id TEXT PRIMARY KEY,
        content_hash TEXT,
        title TEXT NOT NULL CHECK(length(title) <= 500),
        description TEXT NOT NULL DEFAULT '',
        design TEXT NOT NULL DEFAULT '',
        acceptance_criteria TEXT NOT NULL DEFAULT '',
        notes TEXT NOT NULL DEFAULT '',
        status TEXT NOT NULL DEFAULT 'open',
        priority INTEGER NOT NULL DEFAULT 2 CHECK(priority >= 0 AND priority <= 4),
        issue_type TEXT NOT NULL DEFAULT 'task',
        assignee TEXT,
        owner TEXT DEFAULT '',
        estimated_minutes INTEGER,
        created_at DATETIME NOT NULL DEFAULT CURRENT_TIMESTAMP,
        created_by TEXT DEFAULT '',
        updated_at DATETIME NOT NULL DEFAULT CURRENT_TIMESTAMP,
        closed_at DATETIME,
        close_reason TEXT DEFAULT '',
        closed_by_session TEXT DEFAULT '',
        due_at DATETIME,
        defer_until DATETIME,
        external_ref TEXT,
        source_system TEXT DEFAULT '',
        source_repo TEXT NOT NULL DEFAULT '.',
        deleted_at DATETIME,
        deleted_by TEXT DEFAULT '',
        delete_reason TEXT DEFAULT '',
        original_type TEXT DEFAULT '',
        compaction_level INTEGER DEFAULT 0,
        compacted_at DATETIME,
        compacted_at_commit TEXT,
        original_size INTEGER,
        sender TEXT DEFAULT '',
        ephemeral INTEGER NOT NULL DEFAULT 0,
        pinned INTEGER NOT NULL DEFAULT 0,
        is_template INTEGER NOT NULL DEFAULT 0,
        CHECK (
            (status = 'closed' AND closed_at IS NOT NULL) OR
            (status = 'tombstone') OR
            (status NOT IN ('closed', 'tombstone') AND closed_at IS NULL)
        )
    );

    -- Primary access patterns
    CREATE INDEX IF NOT EXISTS idx_issues_status ON issues(status);
    CREATE INDEX IF NOT EXISTS idx_issues_priority ON issues(priority);
    CREATE INDEX IF NOT EXISTS idx_issues_issue_type ON issues(issue_type);
    CREATE INDEX IF NOT EXISTS idx_issues_assignee ON issues(assignee) WHERE assignee IS NOT NULL;
    CREATE INDEX IF NOT EXISTS idx_issues_created_at ON issues(created_at);
    CREATE INDEX IF NOT EXISTS idx_issues_updated_at ON issues(updated_at);

    -- Export/sync patterns
    CREATE INDEX IF NOT EXISTS idx_issues_content_hash ON issues(content_hash);
    CREATE UNIQUE INDEX IF NOT EXISTS idx_issues_external_ref_unique ON issues(external_ref) WHERE external_ref IS NOT NULL;

    -- Special states
    CREATE INDEX IF NOT EXISTS idx_issues_ephemeral ON issues(ephemeral) WHERE ephemeral = 1;
    CREATE INDEX IF NOT EXISTS idx_issues_pinned ON issues(pinned) WHERE pinned = 1;
    CREATE INDEX IF NOT EXISTS idx_issues_tombstone ON issues(status) WHERE status = 'tombstone';

    -- Time-based
    CREATE INDEX IF NOT EXISTS idx_issues_due_at ON issues(due_at) WHERE due_at IS NOT NULL;
    CREATE INDEX IF NOT EXISTS idx_issues_defer_until ON issues(defer_until) WHERE defer_until IS NOT NULL;

    -- Ready work composite index (most important for performance)
    CREATE INDEX IF NOT EXISTS idx_issues_ready
        ON issues(status, priority, created_at)
        WHERE status = 'open'
        AND ephemeral = 0
        AND pinned = 0
        AND is_template = 0;

    -- Common active list path: non-terminal issues sorted by priority/created_at
    CREATE INDEX IF NOT EXISTS idx_issues_list_active_order
        ON issues(priority, created_at DESC)
        WHERE status NOT IN ('closed', 'tombstone')
        AND (is_template = 0 OR is_template IS NULL);

    -- Dependencies
    CREATE TABLE IF NOT EXISTS dependencies (
        issue_id TEXT NOT NULL,
        depends_on_id TEXT NOT NULL,
        type TEXT NOT NULL DEFAULT 'blocks',
        created_at DATETIME NOT NULL DEFAULT CURRENT_TIMESTAMP,
        created_by TEXT NOT NULL DEFAULT '',
        metadata TEXT DEFAULT '{}',
        thread_id TEXT DEFAULT '',
        PRIMARY KEY (issue_id, depends_on_id),
        FOREIGN KEY (issue_id) REFERENCES issues(id) ON DELETE CASCADE
        -- Note: depends_on_id FK intentionally removed to allow external issue references
    );
    CREATE INDEX IF NOT EXISTS idx_dependencies_issue ON dependencies(issue_id);
    CREATE INDEX IF NOT EXISTS idx_dependencies_depends_on ON dependencies(depends_on_id);
    CREATE INDEX IF NOT EXISTS idx_dependencies_type ON dependencies(type);
    CREATE INDEX IF NOT EXISTS idx_dependencies_depends_on_type ON dependencies(depends_on_id, type);
    CREATE INDEX IF NOT EXISTS idx_dependencies_thread ON dependencies(thread_id) WHERE thread_id != '';
    -- Composite for blocking lookups
    CREATE INDEX IF NOT EXISTS idx_dependencies_blocking
        ON dependencies(depends_on_id, issue_id)
        WHERE (type = 'blocks' OR type = 'parent-child' OR type = 'conditional-blocks' OR type = 'waits-for');

    -- Labels
    CREATE TABLE IF NOT EXISTS labels (
        issue_id TEXT NOT NULL,
        label TEXT NOT NULL,
        PRIMARY KEY (issue_id, label),
        FOREIGN KEY (issue_id) REFERENCES issues(id) ON DELETE CASCADE
    );
    CREATE INDEX IF NOT EXISTS idx_labels_label ON labels(label);
    CREATE INDEX IF NOT EXISTS idx_labels_issue ON labels(issue_id);
    CREATE INDEX IF NOT EXISTS idx_labels_for_label_lookup ON labels(label, issue_id);

    -- Comments
    CREATE TABLE IF NOT EXISTS comments (
        id INTEGER PRIMARY KEY AUTOINCREMENT,
        issue_id TEXT NOT NULL,
        author TEXT NOT NULL,
        text TEXT NOT NULL,
        created_at DATETIME NOT NULL DEFAULT CURRENT_TIMESTAMP,
        FOREIGN KEY (issue_id) REFERENCES issues(id) ON DELETE CASCADE
    );
    CREATE INDEX IF NOT EXISTS idx_comments_issue ON comments(issue_id);
    CREATE INDEX IF NOT EXISTS idx_comments_created_at ON comments(created_at);

    -- Events (Audit)
    CREATE TABLE IF NOT EXISTS events (
        id INTEGER PRIMARY KEY AUTOINCREMENT,
        issue_id TEXT NOT NULL,
        event_type TEXT NOT NULL,
        actor TEXT NOT NULL DEFAULT '',
        old_value TEXT,
        new_value TEXT,
        comment TEXT,
        created_at DATETIME NOT NULL DEFAULT CURRENT_TIMESTAMP,
        FOREIGN KEY (issue_id) REFERENCES issues(id) ON DELETE CASCADE
    );
    CREATE INDEX IF NOT EXISTS idx_events_issue ON events(issue_id);
    CREATE INDEX IF NOT EXISTS idx_events_type ON events(event_type);
    CREATE INDEX IF NOT EXISTS idx_events_created_at ON events(created_at);
    CREATE INDEX IF NOT EXISTS idx_events_actor ON events(actor) WHERE actor != '';

    -- Config (Runtime)
    -- NOTE: Avoid PRIMARY KEY/UNIQUE constraints here because the current
    -- storage engine does not reliably maintain unique autoindexes.
    -- Application code enforces key replacement via DELETE + INSERT.
    CREATE TABLE IF NOT EXISTS config (
        key TEXT NOT NULL,
        value TEXT NOT NULL
    );
    CREATE INDEX IF NOT EXISTS idx_config_key ON config(key);

    -- Metadata
    -- Same rationale as config: keep it as key-value with explicit index.
    CREATE TABLE IF NOT EXISTS metadata (
        key TEXT NOT NULL,
        value TEXT NOT NULL
    );
    CREATE INDEX IF NOT EXISTS idx_metadata_key ON metadata(key);

    -- Dirty Issues (for export)
    CREATE TABLE IF NOT EXISTS dirty_issues (
        issue_id TEXT PRIMARY KEY,
        marked_at DATETIME NOT NULL DEFAULT CURRENT_TIMESTAMP,
        FOREIGN KEY (issue_id) REFERENCES issues(id) ON DELETE CASCADE
    );
    CREATE INDEX IF NOT EXISTS idx_dirty_issues_marked_at ON dirty_issues(marked_at);

    -- Export Hashes (for incremental export)
    CREATE TABLE IF NOT EXISTS export_hashes (
        issue_id TEXT PRIMARY KEY,
        content_hash TEXT NOT NULL,
        exported_at DATETIME NOT NULL DEFAULT CURRENT_TIMESTAMP,
        FOREIGN KEY (issue_id) REFERENCES issues(id) ON DELETE CASCADE
    );

    -- Blocked Issues Cache (Materialized view)
    -- Rebuilt on dependency or status changes.
    -- `blocked_by` stores a JSON array of blocking issue IDs.
    CREATE TABLE IF NOT EXISTS blocked_issues_cache (
        issue_id TEXT PRIMARY KEY,
        blocked_by TEXT NOT NULL,
        blocked_at DATETIME NOT NULL DEFAULT CURRENT_TIMESTAMP,
        FOREIGN KEY (issue_id) REFERENCES issues(id) ON DELETE CASCADE
    );
    CREATE INDEX IF NOT EXISTS idx_blocked_cache_blocked_at ON blocked_issues_cache(blocked_at);

    -- Child Counters (for hierarchical IDs like bd-abc.1, bd-abc.2)
    CREATE TABLE IF NOT EXISTS child_counters (
        parent_id TEXT PRIMARY KEY,
        last_child INTEGER NOT NULL DEFAULT 0,
        FOREIGN KEY (parent_id) REFERENCES issues(id) ON DELETE CASCADE
    );
";

/// Views of a list of texts.
pub open spec fn str_views(v: Seq<&str>) -> Seq<Seq<char>> {
    v.map_values(|s: &str| s@)
}

/// Views of a list of `(name, definition)` pairs.
pub open spec fn pair_views(v: Seq<(&str, &str)>) -> Seq<(Seq<char>, Seq<char>)> {
    v.map_values(|p: (&str, &str)| (p.0@, p.1@))
}

/// Columns that an existing issues table gains when it lacks them.
pub open spec fn issue_columns() -> Seq<(Seq<char>, Seq<char>)> {
    seq![
        ("content_hash"@, "TEXT"@),
        ("description"@, "TEXT NOT NULL DEFAULT ''"@),
        ("design"@, "TEXT NOT NULL DEFAULT ''"@),
        ("acceptance_criteria"@, "TEXT NOT NULL DEFAULT ''"@),
        ("notes"@, "TEXT NOT NULL DEFAULT ''"@),
        ("status"@, "TEXT NOT NULL DEFAULT 'open'"@),
        ("priority"@, "INTEGER NOT NULL DEFAULT 2 CHECK(priority >= 0 AND priority <= 4)"@),
        ("issue_type"@, "TEXT NOT NULL DEFAULT 'task'"@),
        ("assignee"@, "TEXT"@),
        ("owner"@, "TEXT DEFAULT ''"@),
        ("estimated_minutes"@, "INTEGER"@),
        ("created_at"@, "DATETIME NOT NULL DEFAULT CURRENT_TIMESTAMP"@),
        ("created_by"@, "TEXT DEFAULT ''"@),
        ("updated_at"@, "DATETIME NOT NULL DEFAULT CURRENT_TIMESTAMP"@),
        ("closed_at"@, "DATETIME"@),
        ("close_reason"@, "TEXT DEFAULT ''"@),
        ("closed_by_session"@, "TEXT DEFAULT ''"@),
        ("due_at"@, "DATETIME"@),
        ("defer_until"@, "DATETIME"@),
        ("external_ref"@, "TEXT"@),
        ("source_system"@, "TEXT DEFAULT ''"@),
        ("source_repo"@, "TEXT NOT NULL DEFAULT '.'"@),
        ("deleted_at"@, "DATETIME"@),
        ("deleted_by"@, "TEXT DEFAULT ''"@),
        ("delete_reason"@, "TEXT DEFAULT ''"@),
        ("original_type"@, "TEXT DEFAULT ''"@),
        ("compaction_level"@, "INTEGER DEFAULT 0"@),
        ("compacted_at"@, "DATETIME"@),
        ("compacted_at_commit"@, "TEXT"@),
        ("original_size"@, "INTEGER"@),
        ("sender"@, "TEXT DEFAULT ''"@),
        ("ephemeral"@, "INTEGER NOT NULL DEFAULT 0"@),
        ("pinned"@, "INTEGER NOT NULL DEFAULT 0"@),
        ("is_template"@, "INTEGER NOT NULL DEFAULT 0"@),
    ]
}

/// Columns that an existing issues table gains when it lacks them.
pub fn issue_columns_list() -> (v: Vec<(&'static str, &'static str)>)
    ensures
        pair_views(v@) == issue_columns(),
{
    let v = vec![
        ("content_hash", "TEXT"),
        ("description", "TEXT NOT NULL DEFAULT ''"),
        ("design", "TEXT NOT NULL DEFAULT ''"),
        ("acceptance_criteria", "TEXT NOT NULL DEFAULT ''"),
        ("notes", "TEXT NOT NULL DEFAULT ''"),
        ("status", "TEXT NOT NULL DEFAULT 'open'"),
        ("priority", "INTEGER NOT NULL DEFAULT 2 CHECK(priority >= 0 AND priority <= 4)"),
        ("issue_type", "TEXT NOT NULL DEFAULT 'task'"),
        ("assignee", "TEXT"),
        ("owner", "TEXT DEFAULT ''"),
        ("estimated_minutes", "INTEGER"),
        ("created_at", "DATETIME NOT NULL DEFAULT CURRENT_TIMESTAMP"),
        ("created_by", "TEXT DEFAULT ''"),
        ("updated_at", "DATETIME NOT NULL DEFAULT CURRENT_TIMESTAMP"),
        ("closed_at", "DATETIME"),
        ("close_reason", "TEXT DEFAULT ''"),
        ("closed_by_session", "TEXT DEFAULT ''"),
        ("due_at", "DATETIME"),
        ("defer_until", "DATETIME"),
        ("external_ref", "TEXT"),
        ("source_system", "TEXT DEFAULT ''"),
        ("source_repo", "TEXT NOT NULL DEFAULT '.'"),
        ("deleted_at", "DATETIME"),
        ("deleted_by", "TEXT DEFAULT ''"),
        ("delete_reason", "TEXT DEFAULT ''"),
        ("original_type", "TEXT DEFAULT ''"),
        ("compaction_level", "INTEGER DEFAULT 0"),
        ("compacted_at", "DATETIME"),
        ("compacted_at_commit", "TEXT"),
        ("original_size", "INTEGER"),
        ("sender", "TEXT DEFAULT ''"),
        ("ephemeral", "INTEGER NOT NULL DEFAULT 0"),
        ("pinned", "INTEGER NOT NULL DEFAULT 0"),
        ("is_template", "INTEGER NOT NULL DEFAULT 0"),
    ];
    assert(pair_views(v@) =~= issue_columns());
    v
}

/// Columns that an existing dependencies table gains when it lacks them.
pub open spec fn dependency_columns() -> Seq<(Seq<char>, Seq<char>)> {
    seq![
        ("type"@, "TEXT NOT NULL DEFAULT 'blocks'"@),
        ("created_at"@, "DATETIME NOT NULL DEFAULT CURRENT_TIMESTAMP"@),
        ("created_by"@, "TEXT NOT NULL DEFAULT ''"@),
        ("metadata"@, "TEXT DEFAULT '{}'"@),
        ("thread_id"@, "TEXT DEFAULT ''"@),
    ]
}

/// Columns that an existing dependencies table gains when it lacks them.
pub fn dependency_columns_list() -> (v: Vec<(&'static str, &'static str)>)
    ensures
        pair_views(v@) == dependency_columns(),
{
    let v = vec![
        ("type", "TEXT NOT NULL DEFAULT 'blocks'"),
        ("created_at", "DATETIME NOT NULL DEFAULT CURRENT_TIMESTAMP"),
        ("created_by", "TEXT NOT NULL DEFAULT ''"),
        ("metadata", "TEXT DEFAULT '{}'"),
        ("thread_id", "TEXT DEFAULT ''"),
    ];
    assert(pair_views(v@) =~= dependency_columns());
    v
}

/// Columns that an existing comments table gains when it lacks them.
pub open spec fn comment_columns() -> Seq<(Seq<char>, Seq<char>)> {
    seq![
        ("author"@, "TEXT NOT NULL DEFAULT ''"@),
        ("text"@, "TEXT NOT NULL DEFAULT ''"@),
        ("created_at"@, "DATETIME NOT NULL DEFAULT CURRENT_TIMESTAMP"@),
    ]
}

/// Columns that an existing comments table gains when it lacks them.
pub fn comment_columns_list() -> (v: Vec<(&'static str, &'static str)>)
    ensures
        pair_views(v@) == comment_columns(),
{
    let v = vec![
        ("author", "TEXT NOT NULL DEFAULT ''"),
        ("text", "TEXT NOT NULL DEFAULT ''"),
        ("created_at", "DATETIME NOT NULL DEFAULT CURRENT_TIMESTAMP"),
    ];
    assert(pair_views(v@) =~= comment_columns());
    v
}

/// Columns that an existing events table gains when it lacks them.
pub open spec fn event_columns() -> Seq<(Seq<char>, Seq<char>)> {
    seq![
        ("event_type"@, "TEXT NOT NULL DEFAULT ''"@),
        ("actor"@, "TEXT NOT NULL DEFAULT ''"@),
        ("old_value"@, "TEXT"@),
        ("new_value"@, "TEXT"@),
        ("comment"@, "TEXT"@),
        ("created_at"@, "DATETIME NOT NULL DEFAULT CURRENT_TIMESTAMP"@),
    ]
}

/// Columns that an existing events table gains when it lacks them.
pub fn event_columns_list() -> (v: Vec<(&'static str, &'static str)>)
    ensures
        pair_views(v@) == event_columns(),
{
    let v = vec![
        ("event_type", "TEXT NOT NULL DEFAULT ''"),
        ("actor", "TEXT NOT NULL DEFAULT ''"),
        ("old_value", "TEXT"),
        ("new_value", "TEXT"),
        ("comment", "TEXT"),
        ("created_at", "DATETIME NOT NULL DEFAULT CURRENT_TIMESTAMP"),
    ];
    assert(pair_views(v@) =~= event_columns());
    v
}

/// The columns of the issues table, in their canonical order, with their definitions.
pub open spec fn canonical_issue_columns() -> Seq<(Seq<char>, Seq<char>)> {
    seq![
        ("id"@, "TEXT PRIMARY KEY"@),
        ("content_hash"@, "TEXT"@),
        ("title"@, "TEXT NOT NULL CHECK(length(title) <= 500)"@),
        ("description"@, "TEXT NOT NULL DEFAULT ''"@),
        ("design"@, "TEXT NOT NULL DEFAULT ''"@),
        ("acceptance_criteria"@, "TEXT NOT NULL DEFAULT ''"@),
        ("notes"@, "TEXT NOT NULL DEFAULT ''"@),
        ("status"@, "TEXT NOT NULL DEFAULT 'open'"@),
        ("priority"@, "INTEGER NOT NULL DEFAULT 2 CHECK(priority >= 0 AND priority <= 4)"@),
        ("issue_type"@, "TEXT NOT NULL DEFAULT 'task'"@),
        ("assignee"@, "TEXT"@),
        ("owner"@, "TEXT DEFAULT ''"@),
        ("estimated_minutes"@, "INTEGER"@),
        ("created_at"@, "DATETIME NOT NULL DEFAULT CURRENT_TIMESTAMP"@),
        ("created_by"@, "TEXT DEFAULT ''"@),
        ("updated_at"@, "DATETIME NOT NULL DEFAULT CURRENT_TIMESTAMP"@),
        ("closed_at"@, "DATETIME"@),
        ("close_reason"@, "TEXT DEFAULT ''"@),
        ("closed_by_session"@, "TEXT DEFAULT ''"@),
        ("due_at"@, "DATETIME"@),
        ("defer_until"@, "DATETIME"@),
        ("external_ref"@, "TEXT"@),
        ("source_system"@, "TEXT DEFAULT ''"@),
        ("source_repo"@, "TEXT NOT NULL DEFAULT '.'"@),
        ("deleted_at"@, "DATETIME"@),
        ("deleted_by"@, "TEXT DEFAULT ''"@),
        ("delete_reason"@, "TEXT DEFAULT ''"@),
        ("original_type"@, "TEXT DEFAULT ''"@),
        ("compaction_level"@, "INTEGER DEFAULT 0"@),
        ("compacted_at"@, "DATETIME"@),
        ("compacted_at_commit"@, "TEXT"@),
        ("original_size"@, "INTEGER"@),
        ("sender"@, "TEXT DEFAULT ''"@),
        ("ephemeral"@, "INTEGER NOT NULL DEFAULT 0"@),
        ("pinned"@, "INTEGER NOT NULL DEFAULT 0"@),
        ("is_template"@, "INTEGER NOT NULL DEFAULT 0"@),
    ]
}

/// The columns of the issues table, in their canonical order, with their definitions.
pub fn canonical_issue_columns_list() -> (v: Vec<(&'static str, &'static str)>)
    ensures
        pair_views(v@) == canonical_issue_columns(),
{
    let v = vec![
        ("id", "TEXT PRIMARY KEY"),
        ("content_hash", "TEXT"),
        ("title", "TEXT NOT NULL CHECK(length(title) <= 500)"),
        ("description", "TEXT NOT NULL DEFAULT ''"),
        ("design", "TEXT NOT NULL DEFAULT ''"),
        ("acceptance_criteria", "TEXT NOT NULL DEFAULT ''"),
        ("notes", "TEXT NOT NULL DEFAULT ''"),
        ("status", "TEXT NOT NULL DEFAULT 'open'"),
        ("priority", "INTEGER NOT NULL DEFAULT 2 CHECK(priority >= 0 AND priority <= 4)"),
        ("issue_type", "TEXT NOT NULL DEFAULT 'task'"),
        ("assignee", "TEXT"),
        ("owner", "TEXT DEFAULT ''"),
        ("estimated_minutes", "INTEGER"),
        ("created_at", "DATETIME NOT NULL DEFAULT CURRENT_TIMESTAMP"),
        ("created_by", "TEXT DEFAULT ''"),
        ("updated_at", "DATETIME NOT NULL DEFAULT CURRENT_TIMESTAMP"),
        ("closed_at", "DATETIME"),
        ("close_reason", "TEXT DEFAULT ''"),
        ("closed_by_session", "TEXT DEFAULT ''"),
        ("due_at", "DATETIME"),
        ("defer_until", "DATETIME"),
        ("external_ref", "TEXT"),
        ("source_system", "TEXT DEFAULT ''"),
        ("source_repo", "TEXT NOT NULL DEFAULT '.'"),
        ("deleted_at", "DATETIME"),
        ("deleted_by", "TEXT DEFAULT ''"),
        ("delete_reason", "TEXT DEFAULT ''"),
        ("original_type", "TEXT DEFAULT ''"),
        ("compaction_level", "INTEGER DEFAULT 0"),
        ("compacted_at", "DATETIME"),
        ("compacted_at_commit", "TEXT"),
        ("original_size", "INTEGER"),
        ("sender", "TEXT DEFAULT ''"),
        ("ephemeral", "INTEGER NOT NULL DEFAULT 0"),
        ("pinned", "INTEGER NOT NULL DEFAULT 0"),
        ("is_template", "INTEGER NOT NULL DEFAULT 0"),
    ];
    assert(pair_views(v@) =~= canonical_issue_columns());
    v
}

/// The names of the issues table's columns, in their canonical order.
pub open spec fn expected_issue_column_order() -> Seq<Seq<char>> {
    seq![
        "id"@,
        "content_hash"@,
        "title"@,
        "description"@,
        "design"@,
        "acceptance_criteria"@,
        "notes"@,
        "status"@,
        "priority"@,
        "issue_type"@,
        "assignee"@,
        "owner"@,
        "estimated_minutes"@,
        "created_at"@,
        "created_by"@,
        "updated_at"@,
        "closed_at"@,
        "close_reason"@,
        "closed_by_session"@,
        "due_at"@,
        "defer_until"@,
        "external_ref"@,
        "source_system"@,
        "source_repo"@,
        "deleted_at"@,
        "deleted_by"@,
        "delete_reason"@,
        "original_type"@,
        "compaction_level"@,
        "compacted_at"@,
        "compacted_at_commit"@,
        "original_size"@,
        "sender"@,
        "ephemeral"@,
        "pinned"@,
        "is_template"@,
    ]
}

/// The names of the issues table's columns, in their canonical order.
pub fn expected_issue_column_order_list() -> (v: Vec<&'static str>)
    ensures
        str_views(v@) == expected_issue_column_order(),
{
    let v = vec![
        "id",
        "content_hash",
        "title",
        "description",
        "design",
        "acceptance_criteria",
        "notes",
        "status",
        "priority",
        "issue_type",
        "assignee",
        "owner",
        "estimated_minutes",
        "created_at",
        "created_by",
        "updated_at",
        "closed_at",
        "close_reason",
        "closed_by_session",
        "due_at",
        "defer_until",
        "external_ref",
        "source_system",
        "source_repo",
        "deleted_at",
        "deleted_by",
        "delete_reason",
        "original_type",
        "compaction_level",
        "compacted_at",
        "compacted_at_commit",
        "original_size",
        "sender",
        "ephemeral",
        "pinned",
        "is_template",
    ];
    assert(str_views(v@) =~= expected_issue_column_order());
    v
}

/// The tables that a database in use must hold.
pub open spec fn core_runtime_tables() -> Seq<Seq<char>> {
    seq![
        "issues"@,
        "dependencies"@,
        "labels"@,
        "comments"@,
        "events"@,
        "config"@,
        "metadata"@,
        "dirty_issues"@,
        "export_hashes"@,
        "blocked_issues_cache"@,
        "child_counters"@,
    ]
}

/// The tables that a database in use must hold.
pub fn core_runtime_tables_list() -> (v: Vec<&'static str>)
    ensures
        str_views(v@) == core_runtime_tables(),
{
    let v = vec![
        "issues",
        "dependencies",
        "labels",
        "comments",
        "events",
        "config",
        "metadata",
        "dirty_issues",
        "export_hashes",
        "blocked_issues_cache",
        "child_counters",
    ];
    assert(str_views(v@) =~= core_runtime_tables());
    v
}

} // verus!
