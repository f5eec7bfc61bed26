//! The records the validators inspect.
//!
//! Each record holds, as plain values, the fields that validation reads.
//! Timestamps are microseconds since the Unix epoch, so that comparing two of
//! them compares the instants they denote.

use vstd::prelude::*;

verus! {

/// An instant, in microseconds since the Unix epoch.
pub type Timestamp = i64;

/// Issue priority: 0 (critical) to 4 (backlog).
#[derive(Clone, Copy, PartialEq, Eq, Structural, Debug)]
pub struct Priority(pub i32);

/// Most urgent priority level.
pub const PRIORITY_CRITICAL: i32 = 0;

/// Least urgent priority level.
pub const PRIORITY_BACKLOG: i32 = 4;

impl Priority {
    pub fn critical() -> (p: Priority)
        ensures
            p.0 == PRIORITY_CRITICAL,
    {
        Priority(PRIORITY_CRITICAL)
    }

    pub fn high() -> (p: Priority)
        ensures
            p.0 == 1,
    {
        Priority(1)
    }

    pub fn medium() -> (p: Priority)
        ensures
            p.0 == 2,
    {
        Priority(2)
    }

    pub fn low() -> (p: Priority)
        ensures
            p.0 == 3,
    {
        Priority(3)
    }

    pub fn backlog() -> (p: Priority)
        ensures
            p.0 == PRIORITY_BACKLOG,
    {
        Priority(PRIORITY_BACKLOG)
    }
}

/// Workflow status of an issue.
#[derive(Clone, Copy, PartialEq, Eq, Structural, Debug)]
pub enum Status {
    Open,
    InProgress,
    Blocked,
    Deferred,
    Closed,
    Tombstone,
    Pinned,
}

/// The fields of an issue that validation reads.
#[derive(Clone, Debug)]
pub struct Issue {
    pub id: String,
    pub title: String,
    pub description: Option<String>,
    pub status: Status,
    pub priority: Priority,
    pub estimated_minutes: Option<i32>,
    pub created_at: Timestamp,
    pub updated_at: Timestamp,
    pub closed_at: Option<Timestamp>,
    pub external_ref: Option<String>,
}

/// A comment attached to an issue.
#[derive(Clone, Debug)]
pub struct Comment {
    pub id: i64,
    pub issue_id: String,
    pub author: String,
    pub body: String,
    pub created_at: Timestamp,
}

/// Kind of a dependency edge.
#[derive(Clone, Copy, PartialEq, Eq, Structural, Debug)]
pub enum DependencyType {
    Blocks,
    ParentChild,
    ConditionalBlocks,
    WaitsFor,
    Related,
    DiscoveredFrom,
    RepliesTo,
    RelatesTo,
    Duplicates,
    Supersedes,
    CausedBy,
}

/// The dependency kinds that block the dependent issue from being ready.
pub open spec fn spec_is_blocking(t: DependencyType) -> bool {
    match t {
        DependencyType::Blocks | DependencyType::ParentChild | DependencyType::ConditionalBlocks
        | DependencyType::WaitsFor => true,
        _ => false,
    }
}

impl DependencyType {
    /// Whether this kind of edge blocks the dependent issue.
    pub fn is_blocking(&self) -> (r: bool)
        ensures
            r == spec_is_blocking(*self),
    {
        match self {
            DependencyType::Blocks | DependencyType::ParentChild
            | DependencyType::ConditionalBlocks | DependencyType::WaitsFor => true,
            _ => false,
        }
    }
}

/// A dependency edge: `issue_id` depends on `depends_on_id`.
#[derive(Clone, Debug)]
pub struct Dependency {
    pub issue_id: String,
    pub depends_on_id: String,
    pub dep_type: DependencyType,
    pub created_at: Timestamp,
}

/// Exactly four kinds block: blocks, parent-child, conditional-blocks and
/// waits-for; every other kind (related, discovered-from, replies-to,
/// relates-to, duplicates, supersedes, caused-by) does not.
pub proof fn law_blocking_kinds_are_exactly_four(t: DependencyType)
    ensures
        spec_is_blocking(t) <==> (t == DependencyType::Blocks || t == DependencyType::ParentChild
            || t == DependencyType::ConditionalBlocks || t == DependencyType::WaitsFor),
        !spec_is_blocking(DependencyType::RelatesTo),
        !spec_is_blocking(DependencyType::Related),
{
}

} // verus!
