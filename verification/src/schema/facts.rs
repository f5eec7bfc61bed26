//! What the caller reports about a database, and the judgments made from it.
//!
//! A [`Snapshot`] holds the answers to the queries that the schema logic
//! depends on:
//! - which of the inspected tables and indexes exist in `sqlite_master`;
//! - for each inspected table, the rows of `PRAGMA table_info('<table>')`
//!   (column name, not-null flag, primary-key flag), or the query's failure;
//! - the names of the indexes on `issues` that have SQL, or the failure;
//! - `PRAGMA user_version`, or the failure.
//!
//! A table whose `table_info` is missing from the snapshot is treated like a
//! table whose query failed.

use vstd::prelude::*;
use super::{
    CURRENT_SCHEMA_VERSION,
    comment_columns,
    core_runtime_tables,
    core_runtime_tables_list,
    comment_columns_list,
    dependency_columns,
    dependency_columns_list,
    event_columns,
    event_columns_list,
    expected_issue_column_order,
    expected_issue_column_order_list,
    pair_views,
    str_views,
};
use crate::text::{chars_of, text_eq};

verus! {

/// One row of `PRAGMA table_info`: the column's name (column 1), its
/// not-null flag (column 3) and its primary-key flag (column 5), each absent
/// when the value is missing or of another type.
#[derive(Clone, Debug)]
pub struct ColumnInfo {
    pub name: Option<String>,
    pub not_null: Option<i64>,
    pub pk: Option<i64>,
}

/// The answer to `PRAGMA table_info('<table>')`.
#[derive(Debug)]
pub struct TableInfo {
    pub table: String,
    pub rows: Result<Vec<ColumnInfo>, String>,
}

/// What the caller reports about the database (see the module
/// documentation).
#[derive(Debug)]
pub struct Snapshot {
    /// The inspected tables that exist.
    pub tables: Vec<String>,
    /// The inspected indexes that exist.
    pub indexes: Vec<String>,
    /// `table_info` answers, per inspected table.
    pub table_infos: Vec<TableInfo>,
    /// Names of the indexes on `issues` that have SQL.
    pub issues_indexes: Result<Vec<String>, String>,
    /// `PRAGMA user_version`: the integer, or `None` when it is not one.
    pub user_version: Result<Option<i64>, String>,
}

/// The tables whose existence and `table_info` a snapshot reports.
pub fn inspected_tables() -> (v: Vec<&'static str>)
    ensures
        str_views(v@) == core_runtime_tables(),
{
    core_runtime_tables_list()
}

/// The indexes whose existence a snapshot reports.
pub fn inspected_indexes() -> (v: Vec<&'static str>)
    ensures
        str_views(v@) == seq!["idx_config_key"@, "idx_metadata_key"@],
{
    let v = vec!["idx_config_key", "idx_metadata_key"];
    assert(str_views(v@) =~= seq!["idx_config_key"@, "idx_metadata_key"@]);
    v
}

/// `t` is one of `names`.
pub open spec fn has_name(names: Seq<String>, t: Seq<char>) -> bool {
    exists|i: int| 0 <= i < names.len() && (#[trigger] names[i])@ == t
}

pub open spec fn table_exists(s: Snapshot, t: Seq<char>) -> bool {
    has_name(s.tables@, t)
}

pub open spec fn index_exists(s: Snapshot, i: Seq<char>) -> bool {
    has_name(s.indexes@, i)
}

/// The first `table_info` answer for `t`, if any.
pub open spec fn find_info(infos: Seq<TableInfo>, t: Seq<char>) -> Option<TableInfo>
    decreases infos.len(),
{
    if infos.len() == 0 {
        None
    } else if infos[0].table@ == t {
        Some(infos[0])
    } else {
        find_info(infos.drop_first(), t)
    }
}

/// The rows of `table_info` for `t`; `None` when the query failed or is not
/// reported.
pub open spec fn info_rows(s: Snapshot, t: Seq<char>) -> Option<Seq<ColumnInfo>> {
    match find_info(s.table_infos@, t) {
        Some(info) => match info.rows {
            Ok(rows) => Some(rows@),
            Err(_) => None,
        },
        None => None,
    }
}

pub open spec fn named(row: ColumnInfo, c: Seq<char>) -> bool {
    row.name matches Some(n) && n@ == c
}

pub open spec fn has_column(rows: Seq<ColumnInfo>, c: Seq<char>) -> bool {
    exists|r: int| 0 <= r < rows.len() && named(#[trigger] rows[r], c)
}

pub open spec fn column_exists(s: Snapshot, t: Seq<char>, c: Seq<char>) -> bool {
    info_rows(s, t) matches Some(rows) && has_column(rows, c)
}

/// The table exists and has every column of `cs`.
pub open spec fn table_has_columns(s: Snapshot, t: Seq<char>, cs: Seq<Seq<char>>) -> bool {
    table_exists(s, t) && forall|k: int| 0 <= k < cs.len() ==> column_exists(s, t, #[trigger] cs[k])
}

/// The table has every column named in the `(name, definition)` list.
pub open spec fn has_listed_columns(s: Snapshot, t: Seq<char>, cs: Seq<(Seq<char>, Seq<char>)>) -> bool {
    forall|k: int| 0 <= k < cs.len() ==> column_exists(s, t, (#[trigger] cs[k]).0)
}

pub open spec fn flag(v: Option<i64>) -> i64 {
    match v {
        Some(x) => x,
        None => 0,
    }
}

/// The `key` column of the key-value table `t` is (part of) its primary key.
pub open spec fn kv_uses_primary_key(s: Snapshot, t: Seq<char>) -> bool {
    info_rows(s, t) matches Some(rows) && exists|r: int|
        0 <= r < rows.len() && named(#[trigger] rows[r], "key"@) && flag(rows[r].pk) > 0
}

/// The key-value table `t` exists but lacks its index `idx`, or still uses a
/// primary key, and must be rebuilt as a plain table.
pub open spec fn kv_needs_rebuild(s: Snapshot, t: Seq<char>, idx: Seq<char>) -> bool {
    info_rows(s, t) matches Some(rows) && rows.len() > 0 && (!index_exists(s, idx)
        || kv_uses_primary_key(s, t))
}

/// The column names of `rows` that are text, in order.
pub open spec fn text_names(rows: Seq<ColumnInfo>) -> Seq<Seq<char>>
    decreases rows.len(),
{
    if rows.len() == 0 {
        Seq::empty()
    } else {
        let p = text_names(rows.drop_last());
        match rows.last().name {
            Some(n) => p.push(n@),
            None => p,
        }
    }
}

/// The issues table is absent or has exactly the canonical columns in the
/// canonical order.
pub open spec fn issues_column_order_matches(s: Snapshot) -> bool {
    info_rows(s, "issues"@) matches Some(rows) && (text_names(rows).len() == 0 || text_names(rows)
        == expected_issue_column_order())
}

/// The first row of `rows` that names column `c`.
pub open spec fn first_named(rows: Seq<ColumnInfo>, c: Seq<char>) -> Option<ColumnInfo>
    decreases rows.len(),
{
    if rows.len() == 0 {
        None
    } else if named(rows[0], c) {
        Some(rows[0])
    } else {
        first_named(rows.drop_first(), c)
    }
}

/// Column `c` of `rows` is absent or may hold NULL.
pub open spec fn nullable_or_missing(rows: Seq<ColumnInfo>, c: Seq<char>) -> bool {
    match first_named(rows, c) {
        None => true,
        Some(row) => flag(row.not_null) == 0,
    }
}

/// The filter columns of the issues table are not all declared NOT NULL
/// (or the table cannot be inspected).
pub open spec fn filter_columns_need_rebuild(s: Snapshot) -> bool {
    match info_rows(s, "issues"@) {
        None => true,
        Some(rows) => nullable_or_missing(rows, "ephemeral"@) || nullable_or_missing(
            rows,
            "pinned"@,
        ) || nullable_or_missing(rows, "is_template"@),
    }
}

/// The database declares the current schema version.
pub open spec fn version_declared(s: Snapshot) -> bool {
    s.user_version matches Ok(Some(v)) && v >= CURRENT_SCHEMA_VERSION
}

pub open spec fn core_tables_exist(s: Snapshot) -> bool {
    forall|k: int| 0 <= k < core_runtime_tables().len() ==> table_exists(
        s,
        #[trigger] core_runtime_tables()[k],
    )
}

/// Every table has the layout the runtime relies on.
pub open spec fn layout_compatible(s: Snapshot) -> bool {
    &&& issues_column_order_matches(s)
    &&& table_has_columns(s, "dependencies"@, seq!["issue_id"@, "depends_on_id"@])
    &&& has_listed_columns(s, "dependencies"@, dependency_columns())
    &&& table_has_columns(s, "labels"@, seq!["issue_id"@, "label"@])
    &&& table_has_columns(s, "comments"@, seq!["id"@, "issue_id"@])
    &&& has_listed_columns(s, "comments"@, comment_columns())
    &&& table_has_columns(s, "events"@, seq!["id"@, "issue_id"@])
    &&& has_listed_columns(s, "events"@, event_columns())
    &&& table_has_columns(s, "config"@, seq!["key"@, "value"@])
    &&& index_exists(s, "idx_config_key"@)
    &&& !kv_uses_primary_key(s, "config"@)
    &&& table_has_columns(s, "metadata"@, seq!["key"@, "value"@])
    &&& index_exists(s, "idx_metadata_key"@)
    &&& !kv_uses_primary_key(s, "metadata"@)
    &&& table_has_columns(s, "dirty_issues"@, seq!["issue_id"@, "marked_at"@])
    &&& table_has_columns(s, "export_hashes"@, seq!["issue_id"@, "content_hash"@, "exported_at"@])
    &&& table_has_columns(s, "blocked_issues_cache"@, seq!["issue_id"@, "blocked_by"@, "blocked_at"@])
    &&& table_has_columns(s, "child_counters"@, seq!["parent_id"@, "last_child"@])
}

/// The database can be used as it is, without the full repair path.
pub open spec fn schema_compatible(s: Snapshot) -> bool {
    ||| version_declared(s) && core_tables_exist(s) && !kv_uses_primary_key(s, "config"@)
        && !kv_uses_primary_key(s, "metadata"@)
    ||| layout_compatible(s)
}

// Executable judgments.

fn has_name_exec(names: &Vec<String>, t: &str) -> (r: bool)
    ensures
        r == has_name(names@, t@),
{
    let mut i: usize = 0;
    while i < names.len()
        invariant
            i <= names.len(),
            forall|j: int| 0 <= j < i ==> (#[trigger] names@[j])@ != t@,
        decreases names.len() - i,
    {
        if text_eq(names[i].as_str(), t) {
            return true;
        }
        i += 1;
    }
    false
}

pub fn table_exists_exec(s: &Snapshot, t: &str) -> (r: bool)
    ensures
        r == table_exists(*s, t@),
{
    has_name_exec(&s.tables, t)
}

pub fn index_exists_exec(s: &Snapshot, i: &str) -> (r: bool)
    ensures
        r == index_exists(*s, i@),
{
    has_name_exec(&s.indexes, i)
}

pub(crate) proof fn lemma_find_info_skip(infos: Seq<TableInfo>, i: int, t: Seq<char>)
    requires
        0 <= i < infos.len(),
        forall|j: int| 0 <= j < i ==> (#[trigger] infos[j]).table@ != t,
    ensures
        find_info(infos, t) == find_info(infos.subrange(i, infos.len() as int), t),
    decreases i,
{
    if i > 0 {
        assert(infos[0].table@ != t);
        assert(infos.drop_first().subrange(i - 1, infos.drop_first().len() as int) =~= infos.subrange(
            i,
            infos.len() as int,
        ));
        lemma_find_info_skip(infos.drop_first(), i - 1, t);
    } else {
        assert(infos.subrange(0, infos.len() as int) =~= infos);
    }
}

/// The rows of `table_info` for `t`, when the query succeeded.
pub fn info_rows_exec<'a>(s: &'a Snapshot, t: &str) -> (r: Option<&'a Vec<ColumnInfo>>)
    ensures
        match info_rows(*s, t@) {
            Some(rows) => r matches Some(v) && v@ == rows,
            None => r is None,
        },
{
    let infos = &s.table_infos;
    let mut i: usize = 0;
    while i < infos.len()
        invariant
            i <= infos.len(),
            infos@ == s.table_infos@,
            forall|j: int| 0 <= j < i ==> (#[trigger] infos@[j]).table@ != t@,
        decreases infos.len() - i,
    {
        if text_eq(infos[i].table.as_str(), t) {
            proof {
                lemma_find_info_skip(infos@, i as int, t@);
                assert(infos@.subrange(i as int, infos@.len() as int)[0] == infos@[i as int]);
            }
            return match &infos[i].rows {
                Ok(rows) => Some(rows),
                Err(_) => None,
            };
        }
        i += 1;
    }
    proof {
        assert(forall|j: int| 0 <= j < infos@.len() ==> (#[trigger] infos@[j]).table@ != t@);
        lemma_find_info_none(infos@, t@);
    }
    None
}

pub(crate) proof fn lemma_find_info_none(infos: Seq<TableInfo>, t: Seq<char>)
    requires
        forall|j: int| 0 <= j < infos.len() ==> (#[trigger] infos[j]).table@ != t,
    ensures
        find_info(infos, t) is None,
    decreases infos.len(),
{
    if infos.len() > 0 {
        assert(infos[0].table@ != t);
        assert forall|j: int| 0 <= j < infos.drop_first().len() implies (
        #[trigger] infos.drop_first()[j]).table@ != t by {
            assert(infos.drop_first()[j] == infos[j + 1]);
        }
        lemma_find_info_none(infos.drop_first(), t);
    }
}

fn named_exec(row: &ColumnInfo, c: &str) -> (r: bool)
    ensures
        r == named(*row, c@),
{
    match &row.name {
        Some(n) => text_eq(n.as_str(), c),
        None => false,
    }
}

fn has_column_exec(rows: &Vec<ColumnInfo>, c: &str) -> (r: bool)
    ensures
        r == has_column(rows@, c@),
{
    let mut i: usize = 0;
    while i < rows.len()
        invariant
            i <= rows.len(),
            forall|j: int| 0 <= j < i ==> !named(#[trigger] rows@[j], c@),
        decreases rows.len() - i,
    {
        if named_exec(&rows[i], c) {
            return true;
        }
        i += 1;
    }
    false
}

pub fn column_exists_exec(s: &Snapshot, t: &str, c: &str) -> (r: bool)
    ensures
        r == column_exists(*s, t@, c@),
{
    match info_rows_exec(s, t) {
        Some(rows) => has_column_exec(rows, c),
        None => false,
    }
}

fn table_has_columns_exec(s: &Snapshot, t: &str, cs: &Vec<&str>) -> (r: bool)
    ensures
        r == table_has_columns(*s, t@, str_views(cs@)),
{
    if !table_exists_exec(s, t) {
        return false;
    }
    let ghost v = str_views(cs@);
    let mut k: usize = 0;
    while k < cs.len()
        invariant
            k <= cs.len(),
            v == str_views(cs@),
            forall|j: int| 0 <= j < k ==> column_exists(*s, t@, #[trigger] v[j]),
        decreases cs.len() - k,
    {
        if !column_exists_exec(s, t, cs[k]) {
            assert(!column_exists(*s, t@, v[k as int]));
            return false;
        }
        k += 1;
    }
    true
}

fn has_listed_columns_exec(s: &Snapshot, t: &str, cs: &Vec<(&str, &str)>) -> (r: bool)
    ensures
        r == has_listed_columns(*s, t@, pair_views(cs@)),
{
    let ghost v = pair_views(cs@);
    let mut k: usize = 0;
    while k < cs.len()
        invariant
            k <= cs.len(),
            v == pair_views(cs@),
            forall|j: int| 0 <= j < k ==> column_exists(*s, t@, (#[trigger] v[j]).0),
        decreases cs.len() - k,
    {
        if !column_exists_exec(s, t, cs[k].0) {
            assert(!column_exists(*s, t@, v[k as int].0));
            return false;
        }
        k += 1;
    }
    true
}

/// Whether the `key` column of the key-value table `t` is a primary key.
pub fn kv_uses_primary_key_exec(s: &Snapshot, t: &str) -> (r: bool)
    ensures
        r == kv_uses_primary_key(*s, t@),
{
    let rows = match info_rows_exec(s, t) {
        Some(rows) => rows,
        None => {
            return false;
        },
    };
    let mut i: usize = 0;
    while i < rows.len()
        invariant
            i <= rows.len(),
            forall|j: int| 0 <= j < i ==> !(named(#[trigger] rows@[j], "key"@) && flag(rows@[j].pk) > 0),
            info_rows(*s, t@) == Some(rows@),
        decreases rows.len() - i,
    {
        let pk = match rows[i].pk {
            Some(x) => x,
            None => 0,
        };
        if named_exec(&rows[i], "key") && pk > 0 {
            assert(named(rows@[i as int], "key"@) && flag(rows@[i as int].pk) > 0);
            return true;
        }
        i += 1;
    }
    false
}

/// Whether the key-value table `t` must be rebuilt (see [`kv_needs_rebuild`]).
pub fn kv_needs_rebuild_exec(s: &Snapshot, t: &str, idx: &str) -> (r: bool)
    ensures
        r == kv_needs_rebuild(*s, t@, idx@),
{
    match info_rows_exec(s, t) {
        Some(rows) => rows.len() > 0 && (!index_exists_exec(s, idx) || kv_uses_primary_key_exec(
            s,
            t,
        )),
        None => false,
    }
}

/// The text column names of `rows`, in order.
pub fn text_names_exec(rows: &Vec<ColumnInfo>) -> (r: Vec<String>)
    ensures
        r@.map_values(|x: String| x@) == text_names(rows@),
{
    let mut r: Vec<String> = Vec::new();
    let mut i: usize = 0;
    assert(rows@.subrange(0, 0) =~= Seq::<ColumnInfo>::empty());
    while i < rows.len()
        invariant
            i <= rows.len(),
            r@.map_values(|x: String| x@) == text_names(rows@.subrange(0, i as int)),
        decreases rows.len() - i,
    {
        assert(rows@.subrange(0, i + 1).drop_last() =~= rows@.subrange(0, i as int));
        assert(rows@.subrange(0, i + 1).last() == rows@[i as int]);
        match &rows[i].name {
            Some(n) => {
                let ghost before = r@;
                r.push(n.clone());
                assert(r@.map_values(|x: String| x@) =~= before.map_values(|x: String| x@).push(n@));
            },
            None => {},
        }
        i += 1;
    }
    assert(rows@.subrange(0, rows.len() as int) =~= rows@);
    r
}

/// Whether the issues table is absent or in canonical column order.
pub fn issues_column_order_matches_exec(s: &Snapshot) -> (r: bool)
    ensures
        r == issues_column_order_matches(*s),
{
    let rows = match info_rows_exec(s, "issues") {
        Some(rows) => rows,
        None => {
            return false;
        },
    };
    let names = text_names_exec(rows);
    let ghost nv = names@.map_values(|x: String| x@);
    if names.len() == 0 {
        return true;
    }
    let expected = expected_issue_column_order_list();
    let ghost ev = str_views(expected@);
    if names.len() != expected.len() {
        return false;
    }
    let mut i: usize = 0;
    while i < names.len()
        invariant
            i <= names.len() == expected.len(),
            nv == names@.map_values(|x: String| x@),
            ev == str_views(expected@),
            nv == text_names(rows@),
            ev == expected_issue_column_order(),
            info_rows(*s, "issues"@) == Some(rows@),
            forall|j: int| 0 <= j < i ==> nv[j] == ev[j],
        decreases names.len() - i,
    {
        if !text_eq(names[i].as_str(), expected[i]) {
            assert(nv[i as int] != ev[i as int]);
            return false;
        }
        i += 1;
    }
    assert(nv =~= ev);
    true
}

proof fn lemma_first_named_skip(rows: Seq<ColumnInfo>, i: int, c: Seq<char>)
    requires
        0 <= i <= rows.len(),
        forall|j: int| 0 <= j < i ==> !named(#[trigger] rows[j], c),
    ensures
        first_named(rows, c) == first_named(rows.subrange(i, rows.len() as int), c),
    decreases i,
{
    if i > 0 {
        assert(!named(rows[0], c));
        assert(rows.drop_first().subrange(i - 1, rows.drop_first().len() as int) =~= rows.subrange(
            i,
            rows.len() as int,
        ));
        assert forall|j: int| 0 <= j < i - 1 implies !named(#[trigger] rows.drop_first()[j], c) by {
            assert(rows.drop_first()[j] == rows[j + 1]);
        }
        lemma_first_named_skip(rows.drop_first(), i - 1, c);
    } else {
        assert(rows.subrange(0, rows.len() as int) =~= rows);
    }
}

fn nullable_or_missing_exec(rows: &Vec<ColumnInfo>, c: &str) -> (r: bool)
    ensures
        r == nullable_or_missing(rows@, c@),
{
    let mut i: usize = 0;
    while i < rows.len()
        invariant
            i <= rows.len(),
            forall|j: int| 0 <= j < i ==> !named(#[trigger] rows@[j], c@),
        decreases rows.len() - i,
    {
        if named_exec(&rows[i], c) {
            proof {
                lemma_first_named_skip(rows@, i as int, c@);
            }
            let nn = match rows[i].not_null {
                Some(x) => x,
                None => 0,
            };
            return nn == 0;
        }
        i += 1;
    }
    proof {
        lemma_first_named_skip(rows@, rows@.len() as int, c@);
    }
    true
}

/// Whether the issues table's filter columns need the NOT NULL rebuild.
pub fn filter_columns_need_rebuild_exec(s: &Snapshot) -> (r: bool)
    ensures
        r == filter_columns_need_rebuild(*s),
{
    match info_rows_exec(s, "issues") {
        None => true,
        Some(rows) => nullable_or_missing_exec(rows, "ephemeral") || nullable_or_missing_exec(
            rows,
            "pinned",
        ) || nullable_or_missing_exec(rows, "is_template"),
    }
}

/// Whether the database declares the current schema version.
pub fn version_declared_exec(s: &Snapshot) -> (r: bool)
    ensures
        r == version_declared(*s),
{
    match &s.user_version {
        Ok(Some(v)) => *v >= CURRENT_SCHEMA_VERSION as i64,
        _ => false,
    }
}

fn core_tables_exist_exec(s: &Snapshot) -> (r: bool)
    ensures
        r == core_tables_exist(*s),
{
    let tables = core_runtime_tables_list();
    let ghost v = str_views(tables@);
    let mut k: usize = 0;
    while k < tables.len()
        invariant
            k <= tables.len(),
            v == str_views(tables@),
            v == core_runtime_tables(),
            forall|j: int| 0 <= j < k ==> table_exists(*s, #[trigger] v[j]),
        decreases tables.len() - k,
    {
        if !table_exists_exec(s, tables[k]) {
            assert(!table_exists(*s, v[k as int]));
            return false;
        }
        k += 1;
    }
    true
}

fn layout_compatible_exec(s: &Snapshot) -> (r: bool)
    ensures
        r == layout_compatible(*s),
{
    let deps = vec!["issue_id", "depends_on_id"];
    assert(str_views(deps@) =~= seq!["issue_id"@, "depends_on_id"@]);
    let labels = vec!["issue_id", "label"];
    assert(str_views(labels@) =~= seq!["issue_id"@, "label"@]);
    let with_id = vec!["id", "issue_id"];
    assert(str_views(with_id@) =~= seq!["id"@, "issue_id"@]);
    let kv = vec!["key", "value"];
    assert(str_views(kv@) =~= seq!["key"@, "value"@]);
    let dirty = vec!["issue_id", "marked_at"];
    assert(str_views(dirty@) =~= seq!["issue_id"@, "marked_at"@]);
    let hashes = vec!["issue_id", "content_hash", "exported_at"];
    assert(str_views(hashes@) =~= seq!["issue_id"@, "content_hash"@, "exported_at"@]);
    let cache = vec!["issue_id", "blocked_by", "blocked_at"];
    assert(str_views(cache@) =~= seq!["issue_id"@, "blocked_by"@, "blocked_at"@]);
    let counters = vec!["parent_id", "last_child"];
    assert(str_views(counters@) =~= seq!["parent_id"@, "last_child"@]);
    issues_column_order_matches_exec(s) && table_has_columns_exec(s, "dependencies", &deps)
        && has_listed_columns_exec(s, "dependencies", &dependency_columns_list())
        && table_has_columns_exec(s, "labels", &labels) && table_has_columns_exec(
        s,
        "comments",
        &with_id,
    ) && has_listed_columns_exec(s, "comments", &comment_columns_list())
        && table_has_columns_exec(s, "events", &with_id) && has_listed_columns_exec(
        s,
        "events",
        &event_columns_list(),
    ) && table_has_columns_exec(s, "config", &kv) && index_exists_exec(s, "idx_config_key")
        && !kv_uses_primary_key_exec(s, "config") && table_has_columns_exec(s, "metadata", &kv)
        && index_exists_exec(s, "idx_metadata_key") && !kv_uses_primary_key_exec(s, "metadata")
        && table_has_columns_exec(s, "dirty_issues", &dirty) && table_has_columns_exec(
        s,
        "export_hashes",
        &hashes,
    ) && table_has_columns_exec(s, "blocked_issues_cache", &cache) && table_has_columns_exec(
        s,
        "child_counters",
        &counters,
    )
}

/// Whether the database can be used as it is, without the full repair path:
/// it declares the current version, holds every core table and no legacy
/// key-value primary key, or else every table already has the runtime
/// layout.
pub fn runtime_schema_compatible(s: &Snapshot) -> (r: bool)
    ensures
        r == schema_compatible(*s),
{
    if version_declared_exec(s) && core_tables_exist_exec(s) && !kv_uses_primary_key_exec(
        s,
        "config",
    ) && !kv_uses_primary_key_exec(s, "metadata") {
        return true;
    }
    layout_compatible_exec(s)
}

} // verus!
