//! Validation of issues, dependencies, labels and comments, and the path
//! guards of the sync subsystem.
//!
//! Validators never change anything: they report every violated rule, in the
//! order the rules are listed here.

use vstd::prelude::*;
use vstd::string::StringSliceAdditionalSpecFns;
use crate::error::{BeadsError, ValidationError, error_views};
use crate::id::{MAX_ID_LENGTH, valid_id};
use crate::model::{
    Comment,
    Dependency,
    DependencyType,
    Issue,
    PRIORITY_BACKLOG,
    PRIORITY_CRITICAL,
    Status,
    spec_is_blocking,
};
use crate::paths::{bytes_path_starts_with, path_bytes_starts_with, path_starts_with};
use crate::text::{
    all_white,
    any_white,
    byte_len,
    chars_of,
    contains,
    contains_exec,
    ends_with,
    ends_with_exec,
    has_white,
    is_ascii_alnum,
    is_blank,
    occurs_at,
    occurs_at_exec,
    str_byte_len,
};

verus! {

/// A `(field, message)` pair.
pub type Finding = (Seq<char>, Seq<char>);

/// The finding `(field, message)` when `cond` holds, nothing otherwise.
pub open spec fn rule(cond: bool, field: &str, message: &str) -> Seq<Finding> {
    if cond {
        seq![(field@, message@)]
    } else {
        Seq::empty()
    }
}

/// Most bytes in a title.
pub const MAX_TITLE_BYTES: usize = 500;

/// Most bytes in a description (100KB).
pub const MAX_DESCRIPTION_BYTES: usize = 102_400;

/// Most minutes in an estimate (about one year).
pub const MAX_ESTIMATED_MINUTES: i32 = 525_960;

/// Most bytes in an external reference.
pub const MAX_EXTERNAL_REF_BYTES: usize = 200;

/// Most bytes in a label.
pub const MAX_LABEL_BYTES: usize = 128;

/// Most bytes in a comment body (50KB).
pub const MAX_COMMENT_BYTES: usize = 51_200;

/// Most bytes in a comment author.
pub const MAX_AUTHOR_BYTES: usize = 200;

/// Everything wrong with `issue`, in rule order.
pub open spec fn issue_findings(issue: Issue) -> Seq<Finding> {
    rule(all_white(issue.id@), "id", "cannot be empty")
    + rule(byte_len(issue.id@) > MAX_ID_LENGTH, "id", "exceeds 100 characters")
    + rule(issue.id@.len() > 0 && !valid_id(issue.id@), "id", "invalid format (expected prefix-hash)")
    + rule(all_white(issue.title@), "title", "cannot be empty")
    + rule(byte_len(issue.title@) > MAX_TITLE_BYTES, "title", "exceeds 500 characters")
    + rule(
        issue.description matches Some(d) && byte_len(d@) > MAX_DESCRIPTION_BYTES,
        "description",
        "exceeds 100KB",
    ) + rule(
        issue.priority.0 < PRIORITY_CRITICAL || issue.priority.0 > PRIORITY_BACKLOG,
        "priority",
        "must be 0-4",
    ) + rule(issue.updated_at < issue.created_at, "updated_at", "cannot be before created_at")
    + rule(
        issue.estimated_minutes matches Some(m) && m < 0,
        "estimated_minutes",
        "cannot be negative",
    ) + rule(
        issue.estimated_minutes matches Some(m) && m > MAX_ESTIMATED_MINUTES,
        "estimated_minutes",
        "exceeds maximum (525960 minutes / ~1 year)",
    ) + rule(
        issue.status == Status::Closed && issue.closed_at is None,
        "closed_at",
        "closed issues must set closed_at",
    ) + rule(
        issue.status != Status::Closed && issue.status != Status::Tombstone
            && issue.closed_at is Some,
        "closed_at",
        "only closed or tombstone issues may set closed_at",
    ) + rule(
        issue.closed_at matches Some(c) && c < issue.created_at,
        "closed_at",
        "cannot be before created_at",
    ) + rule(
        issue.external_ref matches Some(e) && byte_len(e@) > MAX_EXTERNAL_REF_BYTES,
        "external_ref",
        "exceeds 200 characters",
    ) + rule(
        issue.external_ref matches Some(e) && any_white(e@),
        "external_ref",
        "cannot contain whitespace",
    )
}

/// Everything wrong with `comment`, in rule order.
pub open spec fn comment_findings(comment: Comment) -> Seq<Finding> {
    rule(comment.id <= 0, "id", "must be positive")
    + rule(all_white(comment.issue_id@), "issue_id", "cannot be empty")
    + rule(all_white(comment.body@), "content", "cannot be empty")
    + rule(byte_len(comment.body@) > MAX_COMMENT_BYTES, "content", "exceeds 50KB")
    + rule(all_white(comment.author@), "author", "cannot be empty")
    + rule(byte_len(comment.author@) > MAX_AUTHOR_BYTES, "author", "exceeds 200 characters")
}

/// Everything wrong with `dep`, given what storage reports: whether each end
/// exists, whether the edge would close a cycle (consulted for blocking kinds
/// only) and whether the edge is already recorded.
pub open spec fn dependency_findings(
    dep: Dependency,
    issue_found: bool,
    target_found: bool,
    closes_cycle: bool,
    already_recorded: bool,
) -> Seq<Finding> {
    rule(dep.issue_id@ == dep.depends_on_id@, "depends_on_id", "issue cannot depend on itself")
    + rule(!issue_found, "issue_id", "issue not found")
    + rule(!target_found, "depends_on_id", "dependency target not found")
    + rule(
        spec_is_blocking(dep.dep_type) && closes_cycle,
        "depends_on_id",
        "would create dependency cycle",
    ) + rule(already_recorded, "depends_on_id", "dependency already exists")
}

/// The first failed storage answer, in the order the answers are asked; the
/// cycle answer counts only when `blocking`.
pub open spec fn first_store_error(
    blocking: bool,
    issue_found: Result<bool, BeadsError>,
    target_found: Result<bool, BeadsError>,
    closes_cycle: Result<bool, BeadsError>,
    already_recorded: Result<bool, BeadsError>,
) -> Option<BeadsError> {
    if issue_found is Err {
        Some(issue_found->Err_0)
    } else if target_found is Err {
        Some(target_found->Err_0)
    } else if blocking && closes_cycle is Err {
        Some(closes_cycle->Err_0)
    } else if already_recorded is Err {
        Some(already_recorded->Err_0)
    } else {
        None
    }
}

/// A character allowed in labels.
pub open spec fn label_char(c: char) -> bool {
    is_ascii_alnum(c) || c == '-' || c == '_' || c == ':'
}

/// What is wrong with `label`, if anything: only the first violated rule.
pub open spec fn label_finding(label: Seq<char>) -> Option<Finding> {
    if label.len() == 0 {
        Some(("label"@, "cannot be empty"@))
    } else if byte_len(label) > MAX_LABEL_BYTES {
        Some(("label"@, "exceeds 128 characters"@))
    } else if !(forall|i: int| 0 <= i < label.len() ==> label_char(#[trigger] label[i])) {
        Some(
            (
                "label"@,
                "invalid characters (only alphanumeric, hyphen, underscore, colon allowed)"@,
            ),
        )
    } else {
        None
    }
}

/// The result of a validator that reports every finding.
pub open spec fn reports_all(r: Result<(), Vec<ValidationError>>, findings: Seq<Finding>) -> bool {
    match r {
        Ok(()) => findings.len() == 0,
        Err(es) => findings.len() > 0 && error_views(es@) == findings,
    }
}

/// The error that reports `findings`: one finding is a `Validation` error,
/// several are a `ValidationErrors` list in the same order.
pub open spec fn reports_findings(e: BeadsError, findings: Seq<Finding>) -> bool {
    if findings.len() == 1 {
        e matches BeadsError::Validation { field, reason } && (field@, reason@) == findings[0]
    } else {
        e matches BeadsError::ValidationErrors { errors } && error_views(errors@) == findings
    }
}

/// Appends the finding `(field, message)` when `cond` holds.
fn note(errors: &mut Vec<ValidationError>, cond: bool, field: &str, message: &str)
    ensures
        error_views(final(errors)@) == error_views(old(errors)@) + rule(cond, field, message),
{
    if cond {
        errors.push(ValidationError::new(field, message));
        assert(error_views(errors@) =~= error_views(old(errors)@) + rule(cond, field, message));
    } else {
        assert(error_views(errors@) =~= error_views(old(errors)@) + rule(cond, field, message));
    }
}

fn finish(errors: Vec<ValidationError>, findings: Ghost<Seq<Finding>>) -> (r: Result<
    (),
    Vec<ValidationError>,
>)
    requires
        error_views(errors@) == findings@,
    ensures
        reports_all(r, findings@),
{
    if errors.len() == 0 {
        Ok(())
    } else {
        Err(errors)
    }
}

/// Validates issue fields and invariants.
pub struct IssueValidator;

impl IssueValidator {
    /// Validates an issue, reporting every violated rule.
    pub fn validate(issue: &Issue) -> (r: Result<(), Vec<ValidationError>>)
        ensures
            reports_all(r, issue_findings(*issue)),
    {
        let mut errors: Vec<ValidationError> = Vec::new();
        let id = issue.id.as_str();
        note(&mut errors, is_blank(id), "id", "cannot be empty");
        note(&mut errors, str_byte_len(id) > MAX_ID_LENGTH, "id", "exceeds 100 characters");
        note(
            &mut errors,
            !id.is_empty() && !is_valid_id_format(id),
            "id",
            "invalid format (expected prefix-hash)",
        );
        let title = issue.title.as_str();
        note(&mut errors, is_blank(title), "title", "cannot be empty");
        note(
            &mut errors,
            str_byte_len(title) > MAX_TITLE_BYTES,
            "title",
            "exceeds 500 characters",
        );
        let long_description = match &issue.description {
            Some(d) => str_byte_len(d.as_str()) > MAX_DESCRIPTION_BYTES,
            None => false,
        };
        note(&mut errors, long_description, "description", "exceeds 100KB");
        let p = issue.priority.0;
        note(
            &mut errors,
            p < PRIORITY_CRITICAL || p > PRIORITY_BACKLOG,
            "priority",
            "must be 0-4",
        );
        note(
            &mut errors,
            issue.updated_at < issue.created_at,
            "updated_at",
            "cannot be before created_at",
        );
        let (negative, too_long) = match issue.estimated_minutes {
            Some(m) => (m < 0, m > MAX_ESTIMATED_MINUTES),
            None => (false, false),
        };
        note(&mut errors, negative, "estimated_minutes", "cannot be negative");
        note(
            &mut errors,
            too_long,
            "estimated_minutes",
            "exceeds maximum (525960 minutes / ~1 year)",
        );
        let closed = issue.status == Status::Closed;
        let terminal = closed || issue.status == Status::Tombstone;
        note(
            &mut errors,
            closed && issue.closed_at.is_none(),
            "closed_at",
            "closed issues must set closed_at",
        );
        note(
            &mut errors,
            !terminal && issue.closed_at.is_some(),
            "closed_at",
            "only closed or tombstone issues may set closed_at",
        );
        let closed_too_early = match issue.closed_at {
            Some(c) => c < issue.created_at,
            None => false,
        };
        note(&mut errors, closed_too_early, "closed_at", "cannot be before created_at");
        let (long_ref, spaced_ref) = match &issue.external_ref {
            Some(e) => (str_byte_len(e.as_str()) > MAX_EXTERNAL_REF_BYTES, has_white(e.as_str())),
            None => (false, false),
        };
        note(&mut errors, long_ref, "external_ref", "exceeds 200 characters");
        note(&mut errors, spaced_ref, "external_ref", "cannot contain whitespace");
        finish(errors, Ghost(issue_findings(*issue)))
    }
}

/// Storage lookups that dependency validation consults.
///
/// Each question has a relation that says which answers the store may give
/// to it; a store need not answer the same question the same way twice. A
/// store that does not define a relation may give any answer to that
/// question.
pub trait DependencyStore {
    /// The store may answer `r` to whether the issue `id` exists.
    open spec fn issue_answer(&self, id: Seq<char>, r: Result<bool, BeadsError>) -> bool {
        true
    }

    /// The store may answer `r` to whether the edge is already recorded.
    open spec fn edge_answer(
        &self,
        issue_id: Seq<char>,
        depends_on_id: Seq<char>,
        r: Result<bool, BeadsError>,
    ) -> bool {
        true
    }

    /// The store may answer `r` to whether adding the edge would close a
    /// cycle.
    open spec fn cycle_answer(
        &self,
        issue_id: Seq<char>,
        depends_on_id: Seq<char>,
        r: Result<bool, BeadsError>,
    ) -> bool {
        true
    }

    /// Whether the issue exists.
    fn issue_exists(&self, id: &str) -> (r: Result<bool, BeadsError>)
        ensures
            self.issue_answer(id@, r),
    ;

    /// Whether the dependency edge is already recorded.
    fn dependency_exists(&self, issue_id: &str, depends_on_id: &str) -> (r: Result<bool, BeadsError>)
        ensures
            self.edge_answer(issue_id@, depends_on_id@, r),
    ;

    /// Whether adding the dependency would close a cycle.
    fn would_create_cycle(&self, issue_id: &str, depends_on_id: &str) -> (r: Result<
        bool,
        BeadsError,
    >)
        ensures
            self.cycle_answer(issue_id@, depends_on_id@, r),
    ;
}

/// `r` is the outcome of validating `dep` from the storage answers, given
/// in the order they are asked (see [`DependencyValidator::outcome`]).
pub open spec fn dependency_outcome(
    dep: Dependency,
    issue_found: Result<bool, BeadsError>,
    target_found: Result<bool, BeadsError>,
    closes_cycle: Result<bool, BeadsError>,
    already_recorded: Result<bool, BeadsError>,
    r: Result<(), BeadsError>,
) -> bool {
    match first_store_error(
        spec_is_blocking(dep.dep_type),
        issue_found,
        target_found,
        closes_cycle,
        already_recorded,
    ) {
        Some(e) => r == Err::<(), BeadsError>(e),
        None => {
            let findings = dependency_findings(
                dep,
                issue_found->Ok_0,
                target_found->Ok_0,
                spec_is_blocking(dep.dep_type) && closes_cycle->Ok_0,
                already_recorded->Ok_0,
            );
            &&& r is Ok <==> findings.len() == 0
            &&& r matches Err(e) ==> reports_findings(e, findings)
        },
    }
}

/// The answers `a` (the issue exists), `b` (the target exists), `c` (the
/// edge closes a cycle) and `d` (the edge is recorded) are ones `store` may
/// give to the questions `validate` asks about `dep`, each question asked
/// only while every earlier answer succeeded, and the cycle question only for
/// blocking kinds.
pub open spec fn store_may_answer<S: DependencyStore>(
    store: S,
    dep: Dependency,
    a: Result<bool, BeadsError>,
    b: Result<bool, BeadsError>,
    c: Result<bool, BeadsError>,
    d: Result<bool, BeadsError>,
) -> bool {
    let blocking = spec_is_blocking(dep.dep_type);
    &&& store.issue_answer(dep.issue_id@, a)
    &&& a is Ok ==> store.issue_answer(dep.depends_on_id@, b)
    &&& a is Ok && b is Ok && blocking ==> store.cycle_answer(dep.issue_id@, dep.depends_on_id@, c)
    &&& a is Ok && b is Ok && (blocking ==> c is Ok) ==> store.edge_answer(
        dep.issue_id@,
        dep.depends_on_id@,
        d,
    )
}

/// Validates dependency invariants, consulting storage.
pub struct DependencyValidator;

impl DependencyValidator {
    /// The verdict on `dep` once storage has answered: `Ok` when nothing is
    /// wrong, otherwise the error that reports every finding.
    pub fn verdict(
        dep: &Dependency,
        issue_found: bool,
        target_found: bool,
        closes_cycle: bool,
        already_recorded: bool,
    ) -> (r: Result<(), BeadsError>)
        ensures
            r is Ok <==> dependency_findings(
                *dep,
                issue_found,
                target_found,
                closes_cycle,
                already_recorded,
            ).len() == 0,
            r matches Err(e) ==> reports_findings(
                e,
                dependency_findings(*dep, issue_found, target_found, closes_cycle, already_recorded),
            ),
    {
        let mut errors: Vec<ValidationError> = Vec::new();
        note(
            &mut errors,
            dep.issue_id == dep.depends_on_id,
            "depends_on_id",
            "issue cannot depend on itself",
        );
        note(&mut errors, !issue_found, "issue_id", "issue not found");
        note(&mut errors, !target_found, "depends_on_id", "dependency target not found");
        note(
            &mut errors,
            dep.dep_type.is_blocking() && closes_cycle,
            "depends_on_id",
            "would create dependency cycle",
        );
        note(&mut errors, already_recorded, "depends_on_id", "dependency already exists");
        if errors.len() == 0 {
            Ok(())
        } else {
            let ghost es = errors@;
            let e = BeadsError::from_validation_errors(errors);
            proof {
                if es.len() == 1 {
                    assert(error_views(es)[0] == (es[0].field@, es[0].message@));
                }
            }
            Err(e)
        }
    }

    /// The outcome of validating `dep` from the storage answers, given in the
    /// order they are asked: whether the issue exists, whether the target
    /// exists, whether the edge would close a cycle, and whether the edge is
    /// already recorded. The first failed answer is the result, as it is; the
    /// cycle answer counts only for blocking kinds. When every answer that
    /// counts succeeded, the result is [`DependencyValidator::verdict`] on
    /// them.
    pub fn outcome(
        dep: &Dependency,
        issue_found: Result<bool, BeadsError>,
        target_found: Result<bool, BeadsError>,
        closes_cycle: Result<bool, BeadsError>,
        already_recorded: Result<bool, BeadsError>,
    ) -> (r: Result<(), BeadsError>)
        ensures
            dependency_outcome(*dep, issue_found, target_found, closes_cycle, already_recorded, r),
    {
        let issue_found = match issue_found {
            Ok(b) => b,
            Err(e) => return Err(e),
        };
        let target_found = match target_found {
            Ok(b) => b,
            Err(e) => return Err(e),
        };
        let blocking = dep.dep_type.is_blocking();
        let closes_cycle = if blocking {
            match closes_cycle {
                Ok(b) => b,
                Err(e) => return Err(e),
            }
        } else {
            false
        };
        let already_recorded = match already_recorded {
            Ok(b) => b,
            Err(e) => return Err(e),
        };
        Self::verdict(dep, issue_found, target_found, closes_cycle, already_recorded)
    }

    /// Validates a new dependency edge. Storage is asked, in this order,
    /// whether the issue exists, whether the target exists, whether the edge
    /// would close a cycle (blocking kinds only) and whether the edge is
    /// already recorded; no question follows a failed answer. The result is
    /// [`DependencyValidator::outcome`] on the answers.
    pub fn validate<S: DependencyStore>(dep: &Dependency, store: &S) -> (r: Result<(), BeadsError>)
        ensures
            dep.issue_id@ == dep.depends_on_id@ ==> r is Err,
            exists|
                a: Result<bool, BeadsError>,
                b: Result<bool, BeadsError>,
                c: Result<bool, BeadsError>,
                d: Result<bool, BeadsError>,
            |
                #![trigger dependency_outcome(*dep, a, b, c, d, r)]
                store_may_answer(*store, *dep, a, b, c, d) && dependency_outcome(
                    *dep,
                    a,
                    b,
                    c,
                    d,
                    r,
                ),
    {
        let issue_found = store.issue_exists(dep.issue_id.as_str());
        let target_found = if issue_found.is_ok() {
            store.issue_exists(dep.depends_on_id.as_str())
        } else {
            Ok(false)
        };
        let closes_cycle = if target_found.is_ok() && issue_found.is_ok()
            && dep.dep_type.is_blocking() {
            store.would_create_cycle(dep.issue_id.as_str(), dep.depends_on_id.as_str())
        } else {
            Ok(false)
        };
        let already_recorded = if issue_found.is_ok() && target_found.is_ok()
            && closes_cycle.is_ok() {
            store.dependency_exists(dep.issue_id.as_str(), dep.depends_on_id.as_str())
        } else {
            Ok(false)
        };
        let ghost (a, b, c, d) = (issue_found, target_found, closes_cycle, already_recorded);
        let r = Self::outcome(dep, issue_found, target_found, closes_cycle, already_recorded);
        assert(store_may_answer(*store, *dep, a, b, c, d) && dependency_outcome(*dep, a, b, c, d, r));
        r
    }
}

/// Validates a single label value.
pub struct LabelValidator;

impl LabelValidator {
    /// Validates a label for length and allowed characters; reports the first
    /// violated rule.
    pub fn validate(label: &str) -> (r: Result<(), ValidationError>)
        ensures
            match label_finding(label@) {
                None => r is Ok,
                Some(f) => r matches Err(e) && (e.field@, e.message@) == f,
            },
    {
        if label.is_empty() {
            return Err(ValidationError::new("label", "cannot be empty"));
        }
        if str_byte_len(label) > MAX_LABEL_BYTES {
            return Err(ValidationError::new("label", "exceeds 128 characters"));
        }
        let v = chars_of(label);
        let mut i: usize = 0;
        while i < v.len()
            invariant
                v@ == label@,
                label@.len() > 0,
                byte_len(label@) <= MAX_LABEL_BYTES,
                i <= v.len(),
                forall|j: int| 0 <= j < i ==> label_char(#[trigger] v@[j]),
            decreases v.len() - i,
        {
            let c = v[i];
            let ok = ('a' <= c && c <= 'z') || ('A' <= c && c <= 'Z') || ('0' <= c && c <= '9')
                || c == '-' || c == '_' || c == ':';
            if !ok {
                assert(!label_char(label@[i as int]));
                return Err(
                    ValidationError::new(
                        "label",
                        "invalid characters (only alphanumeric, hyphen, underscore, colon allowed)",
                    ),
                );
            }
            i += 1;
        }
        Ok(())
    }
}

/// Validates comment fields.
pub struct CommentValidator;

impl CommentValidator {
    /// Validates a comment, reporting every violated rule.
    pub fn validate(comment: &Comment) -> (r: Result<(), Vec<ValidationError>>)
        ensures
            reports_all(r, comment_findings(*comment)),
    {
        let mut errors: Vec<ValidationError> = Vec::new();
        note(&mut errors, comment.id <= 0, "id", "must be positive");
        note(&mut errors, is_blank(comment.issue_id.as_str()), "issue_id", "cannot be empty");
        let body = comment.body.as_str();
        note(&mut errors, is_blank(body), "content", "cannot be empty");
        note(&mut errors, str_byte_len(body) > MAX_COMMENT_BYTES, "content", "exceeds 50KB");
        let author = comment.author.as_str();
        note(&mut errors, is_blank(author), "author", "cannot be empty");
        note(
            &mut errors,
            str_byte_len(author) > MAX_AUTHOR_BYTES,
            "author",
            "exceeds 200 characters",
        );
        finish(errors, Ghost(comment_findings(*comment)))
    }
}

/// Whether `id` has the `prefix-hash[.N]*` form.
pub fn is_valid_id_format(id: &str) -> (r: bool)
    ensures
        r == valid_id(id@),
{
    crate::id::is_valid_id_format(id)
}

// Sync safety.

/// The message of every `.git` refusal.
pub open spec fn git_refusal() -> Seq<char> {
    "sync operations cannot access .git directory (safety invariant)"@
}

/// `.git` occurs in `s` at `i` as a whole `/`-separated component.
pub open spec fn git_component_at(s: Seq<char>, i: int) -> bool {
    &&& occurs_at(s, ".git"@, i)
    &&& i == 0 || s[i - 1] == '/'
    &&& i + ".git"@.len() == s.len() || s[i + ".git"@.len()] == '/'
}

/// Some component of the path text `s` is `.git`.
pub open spec fn has_git_component(s: Seq<char>) -> bool {
    exists|i: int| git_component_at(s, i)
}

/// The path text `s` names git internals: a `.git` component, or one of the
/// `.git` forms written with either separator.
pub open spec fn targets_git(s: Seq<char>) -> bool {
    ||| has_git_component(s)
    ||| contains(s, "/.git/"@)
    ||| contains(s, "\\.git\\"@)
    ||| ends_with(s, "/.git"@)
    ||| ends_with(s, "\\.git"@)
}

/// The path text judged for containment: the resolved form when resolving
/// succeeded, else the text as given.
pub open spec fn resolved(canonical: Option<Vec<u8>>, given: Seq<char>) -> Seq<u8> {
    match canonical {
        Some(c) => c@,
        None => vstd::utf8::encode_utf8(given),
    }
}

/// The message of a containment refusal.
pub open spec fn outside_message(path: Seq<char>, beads_dir: Seq<char>) -> Seq<char> {
    "path '"@ + path + "' is outside allowed directory '"@ + beads_dir
        + "' (use --allow-external-jsonl to override)"@
}

fn git_component_at_exec(v: &Vec<char>, git: &Vec<char>, i: usize) -> (r: bool)
    requires
        git@ == ".git"@,
    ensures
        r == git_component_at(v@, i as int),
{
    if !occurs_at_exec(v, git, i) {
        return false;
    }
    assert(i + git.len() <= v.len());
    let end = i + git.len();
    (i == 0 || v[i - 1] == '/') && (end == v.len() || v[end] == '/')
}

fn has_git_component_exec(v: &Vec<char>, git: &Vec<char>) -> (r: bool)
    requires
        git@ == ".git"@,
    ensures
        r == has_git_component(v@),
{
    let mut i: usize = 0;
    while i < v.len()
        invariant
            i <= v.len(),
            git@ == ".git"@,
            forall|j: int| 0 <= j < i ==> !git_component_at(v@, j),
        decreases v.len() - i,
    {
        if git_component_at_exec(v, git, i) {
            return true;
        }
        i += 1;
    }
    if git_component_at_exec(v, git, i) {
        return true;
    }
    assert forall|j: int| !git_component_at(v@, j) by {
        if 0 <= j && j < i {
        }
    }
    false
}

/// A path guard error.
fn path_error(message: &str) -> (e: ValidationError)
    ensures
        e.field@ == "path"@,
        e.message@ == message@,
{
    ValidationError::new("path", message)
}

/// `dunce::canonicalize`: the raw bytes of the canonical form of `path`, or
/// `None` when it cannot be resolved. The outcome depends on the file
/// system, so nothing is stated of it.
#[verifier::external_body]
fn canonical_bytes(path: &str) -> (r: Option<Vec<u8>>) {
    match dunce::canonicalize(path) {
        Ok(p) => Some(p.into_os_string().into_encoded_bytes()),
        Err(_) => None,
    }
}

/// The UTF-8 bytes of `s`.
fn text_bytes(s: &str) -> (r: Vec<u8>)
    ensures
        r@ == vstd::utf8::encode_utf8(s@),
{
    let b = s.as_bytes();
    let mut r: Vec<u8> = Vec::new();
    let mut i: usize = 0;
    while i < b.len()
        invariant
            i <= b.len(),
            b@ == s.spec_bytes(),
            r@ == b@.subrange(0, i as int),
        decreases b.len() - i,
    {
        r.push(b[i]);
        assert(r@ =~= b@.subrange(0, i + 1));
        i += 1;
    }
    assert(r@ =~= b@);
    r
}

/// Validates sync operations against the safety invariants.
pub struct SyncSafetyValidator;

impl SyncSafetyValidator {
    /// Refuses a path text that targets git internals. Components are read
    /// the Unix way: only `/` separates them, so `.git\config` is one
    /// component (its `\.git\` and trailing `\.git` text forms are still
    /// refused).
    pub fn validate_no_git_path(path: &str) -> (r: Result<(), ValidationError>)
        ensures
            r is Ok <==> !targets_git(path@),
            r matches Err(e) ==> e.field@ == "path"@ && e.message@ == git_refusal(),
    {
        let v = chars_of(path);
        let git = chars_of(".git");
        if has_git_component_exec(&v, &git) || contains_exec(&v, &chars_of("/.git/"))
            || contains_exec(&v, &chars_of("\\.git\\")) || ends_with_exec(&v, &chars_of("/.git"))
            || ends_with_exec(&v, &chars_of("\\.git")) {
            return Err(
                path_error("sync operations cannot access .git directory (safety invariant)"),
            );
        }
        Ok(())
    }

    /// The containment verdict once both paths are resolved to raw path
    /// bytes: `path` must lie within `beads_dir`, component by component,
    /// components compared byte for byte.
    pub fn containment_verdict(
        path: &str,
        beads_dir: &str,
        resolved_path: &Vec<u8>,
        resolved_beads_dir: &Vec<u8>,
    ) -> (r: Result<(), ValidationError>)
        ensures
            r is Ok <==> bytes_path_starts_with(resolved_path@, resolved_beads_dir@),
            r matches Err(e) ==> e.field@ == "path"@ && e.message@ == outside_message(
                path@,
                beads_dir@,
            ),
    {
        if !path_bytes_starts_with(resolved_path, resolved_beads_dir) {
            let mut message = String::from_str("path '");
            message.append(path);
            message.append("' is outside allowed directory '");
            message.append(beads_dir);
            message.append("' (use --allow-external-jsonl to override)");
            return Err(ValidationError { field: String::from_str("path"), message });
        }
        Ok(())
    }

    /// Validates that a path stays within the beads directory. A path that
    /// targets git internals is always refused; with `allow_external` any
    /// other path is accepted. Otherwise both paths are resolved through the
    /// file system and judged by [`SyncSafetyValidator::containment_outcome`]
    /// on what resolving gave (each path kept as given when it cannot be
    /// resolved). Paths are compared the Unix way: only `/` separates
    /// components.
    pub fn validate_path_containment(path: &str, beads_dir: &str, allow_external: bool) -> (r:
        Result<(), ValidationError>)
        ensures
            targets_git(path@) ==> (r matches Err(e) && e.field@ == "path"@ && e.message@
                == git_refusal()),
            !targets_git(path@) && allow_external ==> r is Ok,
            !targets_git(path@) && !allow_external ==> (r matches Err(e) ==> e.field@ == "path"@
                && e.message@ == outside_message(path@, beads_dir@)),
    {
        Self::validate_no_git_path(path)?;
        if allow_external {
            return Ok(());
        }
        let canonical_path = canonical_bytes(path);
        let canonical_beads_dir = canonical_bytes(beads_dir);
        Self::containment_outcome(path, beads_dir, canonical_path, canonical_beads_dir)
    }

    /// The containment verdict given what resolving each path gave: a path
    /// that could not be resolved (`None`) is judged as given.
    pub fn containment_outcome(
        path: &str,
        beads_dir: &str,
        canonical_path: Option<Vec<u8>>,
        canonical_beads_dir: Option<Vec<u8>>,
    ) -> (r: Result<(), ValidationError>)
        ensures
            r is Ok <==> bytes_path_starts_with(
                resolved(canonical_path, path@),
                resolved(canonical_beads_dir, beads_dir@),
            ),
            r matches Err(e) ==> e.field@ == "path"@ && e.message@ == outside_message(
                path@,
                beads_dir@,
            ),
    {
        let resolved_path = match canonical_path {
            Some(p) => p,
            None => text_bytes(path),
        };
        let resolved_beads_dir = match canonical_beads_dir {
            Some(b) => b,
            None => text_bytes(beads_dir),
        };
        Self::containment_verdict(path, beads_dir, &resolved_path, &resolved_beads_dir)
    }

    /// Sync code paths never run git: there is no process spawning and no git
    /// library in this crate, so there is nothing to check at run time.
    pub fn assert_no_git_in_sync() {
    }
}


// Laws.

/// The schema's closed-at constraint: a closed issue records when it closed,
/// a tombstone may or may not, and any other issue has no closing time.
pub open spec fn closed_at_constraint(issue: Issue) -> bool {
    ||| issue.status == Status::Closed && issue.closed_at is Some
    ||| issue.status == Status::Tombstone
    ||| issue.status != Status::Closed && issue.status != Status::Tombstone
        && issue.closed_at is None
}

proof fn lemma_byte_len_at_least_char_len(s: Seq<char>)
    ensures
        byte_len(s) >= s.len(),
    decreases s.len(),
{
    if s.len() > 0 {
        lemma_byte_len_at_least_char_len(s.drop_first());
    }
}

/// An issue that passes validation meets the storage constraints of the
/// issues table: the closed-at constraint, a priority from 0 to 4, a title of
/// at most 500 characters, and `created_at <= updated_at`.
pub proof fn law_valid_issue_meets_table_constraints(issue: Issue)
    requires
        issue_findings(issue).len() == 0,
    ensures
        closed_at_constraint(issue),
        PRIORITY_CRITICAL <= issue.priority.0 <= PRIORITY_BACKLOG,
        issue.title@.len() <= MAX_TITLE_BYTES,
        issue.created_at <= issue.updated_at,
        !all_white(issue.title@),
        issue.closed_at matches Some(c) ==> issue.created_at <= c,
{
    lemma_byte_len_at_least_char_len(issue.title@);
    law_issue_accepted_exactly_when_rules_hold(issue);
}

/// A comment that passes validation has a positive id and a body that is
/// neither blank nor over 50KB.
pub proof fn law_valid_comment_basics(comment: Comment)
    requires
        comment_findings(comment).len() == 0,
    ensures
        comment.id > 0,
        !all_white(comment.body@),
        byte_len(comment.body@) <= MAX_COMMENT_BYTES,
{
}

/// For the dependency kinds that do not block, whether the edge would close
/// a cycle never matters.
pub proof fn law_cycles_matter_only_for_blocking_kinds(
    dep: Dependency,
    issue_found: bool,
    target_found: bool,
    already_recorded: bool,
)
    requires
        !spec_is_blocking(dep.dep_type),
    ensures
        dependency_findings(dep, issue_found, target_found, true, already_recorded)
            == dependency_findings(dep, issue_found, target_found, false, already_recorded),
{
}

/// An identifier in the `prefix-hash` form is never blank, so the two `id`
/// findings "cannot be empty" and "invalid format" exclude each other on a
/// well-formed identifier.
pub proof fn law_valid_id_not_blank(s: Seq<char>)
    requires
        valid_id(s),
    ensures
        s.len() > 0,
        !all_white(s),
{
    let d = choose|d: int| crate::id::id_split(s, d);
    assert(crate::id::lower_or_digit(s[0]));
    assert(!crate::text::is_white_space(s[0]));
}

/// The component check subsumes the forward-slash text checks: a path text
/// containing `/.git/` or ending in `/.git` has a `.git` component.
pub proof fn law_slash_forms_are_git_components(s: Seq<char>)
    ensures
        contains(s, "/.git/"@) ==> has_git_component(s),
        ends_with(s, "/.git"@) ==> has_git_component(s),
{
    reveal_strlit("/.git/");
    reveal_strlit("/.git");
    reveal_strlit(".git");
    if contains(s, "/.git/"@) {
        let i = choose|i: int| occurs_at(s, "/.git/"@, i);
        let w = s.subrange(i, i + 6);
        assert(w == "/.git/"@);
        assert forall|k: int| 0 <= k < 4 implies s.subrange(i + 1, i + 5)[k] == ".git"@[k] by {
            assert(w[k + 1] == "/.git/"@[k + 1]);
        }
        assert(s.subrange(i + 1, i + 5) =~= ".git"@);
        assert(s[i] == w[0] && w[0] == '/');
        assert(s[i + 5] == w[5] && w[5] == '/');
        assert(git_component_at(s, i + 1));
    }
    if ends_with(s, "/.git"@) {
        let i = s.len() - 5;
        let w = s.subrange(i, s.len() as int);
        assert(w == "/.git"@);
        assert forall|k: int| 0 <= k < 4 implies s.subrange(i + 1, s.len() as int)[k] == ".git"@[k] by {
            assert(w[k + 1] == "/.git"@[k + 1]);
        }
        assert(s.subrange(i + 1, s.len() as int) =~= ".git"@);
        assert(s[i] == w[0] && w[0] == '/');
        assert(git_component_at(s, i + 1));
    }
}

/// `.gitignore`-like names are not git internals: a path text without any
/// `.git` component and without backslashes is never refused.
pub proof fn law_no_git_component_no_backslash_is_allowed(s: Seq<char>)
    requires
        !has_git_component(s),
        forall|i: int| 0 <= i < s.len() ==> s[i] != '\\',
    ensures
        !targets_git(s),
{
    law_slash_forms_are_git_components(s);
    reveal_strlit("\\.git\\");
    reveal_strlit("\\.git");
    if contains(s, "\\.git\\"@) {
        let i = choose|i: int| occurs_at(s, "\\.git\\"@, i);
        assert(s.subrange(i, i + 6)[0] == '\\');
        assert(s[i] == '\\');
    }
    if ends_with(s, "\\.git"@) {
        let i = s.len() - 5;
        assert(s.subrange(i, s.len() as int)[0] == '\\');
        assert(s[i] == '\\');
    }
}

/// Every path lies within itself.
pub proof fn law_path_within_itself(p: Seq<char>)
    ensures
        path_starts_with(p, p),
{
    let c = crate::paths::path_components(p);
    assert(c.subrange(0, c.len() as int) =~= c);
}

/// Some finding of `findings` concerns `field`.
pub open spec fn reports_field(findings: Seq<Finding>, field: Seq<char>) -> bool {
    exists|k: int| 0 <= k < findings.len() && (#[trigger] findings[k]).0 == field
}

broadcast proof fn lemma_reports_concat(a: Seq<Finding>, b: Seq<Finding>, field: Seq<char>)
    ensures
        #[trigger] reports_field(a + b, field) == (reports_field(a, field) || reports_field(
            b,
            field,
        )),
{
    if reports_field(a, field) {
        let k = choose|k: int| 0 <= k < a.len() && (#[trigger] a[k]).0 == field;
        assert((a + b)[k] == a[k]);
    }
    if reports_field(b, field) {
        let k = choose|k: int| 0 <= k < b.len() && (#[trigger] b[k]).0 == field;
        assert((a + b)[a.len() + k] == b[k]);
    }
    if reports_field(a + b, field) {
        let k = choose|k: int| 0 <= k < (a + b).len() && (#[trigger] (a + b)[k]).0 == field;
        if k < a.len() {
            assert(a[k] == (a + b)[k]);
        } else {
            assert(b[k - a.len()] == (a + b)[k]);
        }
    }
}

broadcast proof fn lemma_reports_rule(c: bool, field: &str, message: &str, f: Seq<char>)
    ensures
        #[trigger] reports_field(rule(c, field, message), f) == (c && field@ == f),
{
    if c && field@ == f {
        assert(rule(c, field, message)[0].0 == f);
    }
}

/// Each broken issue rule is reported under its field: an identifier that
/// is blank, too long or malformed, a blank or too long title, a description
/// over 100KB, a priority outside 0-4, an update before the creation, a
/// negative or excessive estimate, an inconsistent or early closing time, and
/// an external reference that is too long or holds white space.
pub proof fn law_broken_issue_rules_name_their_field(issue: Issue)
    ensures
        all_white(issue.id@) || byte_len(issue.id@) > MAX_ID_LENGTH || (issue.id@.len() > 0
            && !valid_id(issue.id@)) ==> reports_field(issue_findings(issue), "id"@),
        all_white(issue.title@) || byte_len(issue.title@) > MAX_TITLE_BYTES ==> reports_field(
            issue_findings(issue),
            "title"@,
        ),
        issue.description matches Some(d) && byte_len(d@) > MAX_DESCRIPTION_BYTES ==> reports_field(
            issue_findings(issue),
            "description"@,
        ),
        issue.priority.0 < PRIORITY_CRITICAL || issue.priority.0 > PRIORITY_BACKLOG ==> reports_field(
            issue_findings(issue),
            "priority"@,
        ),
        issue.updated_at < issue.created_at ==> reports_field(issue_findings(issue), "updated_at"@),
        issue.estimated_minutes matches Some(m) && (m < 0 || m > MAX_ESTIMATED_MINUTES)
            ==> reports_field(issue_findings(issue), "estimated_minutes"@),
        !closed_at_constraint(issue) || (issue.closed_at matches Some(c) && c < issue.created_at)
            ==> reports_field(issue_findings(issue), "closed_at"@),
        issue.external_ref matches Some(e) && (byte_len(e@) > MAX_EXTERNAL_REF_BYTES || any_white(
            e@,
        )) ==> reports_field(issue_findings(issue), "external_ref"@),
{
    broadcast use {lemma_reports_concat, lemma_reports_rule};

}

/// A label passes exactly when it is non-empty, at most 128 bytes long and
/// made of ASCII letters, digits, `-`, `_` and `:`.
pub proof fn law_label_accepted_exactly_when_well_formed(label: Seq<char>)
    ensures
        label_finding(label) is None <==> (label.len() > 0 && byte_len(label) <= MAX_LABEL_BYTES
            && forall|i: int| 0 <= i < label.len() ==> label_char(#[trigger] label[i])),
{
}

/// An issue passes exactly when every issue rule holds.
pub proof fn law_issue_accepted_exactly_when_rules_hold(issue: Issue)
    ensures
        issue_findings(issue).len() == 0 <==> {
            &&& !all_white(issue.id@)
            &&& byte_len(issue.id@) <= MAX_ID_LENGTH
            &&& issue.id@.len() > 0 ==> valid_id(issue.id@)
            &&& !all_white(issue.title@)
            &&& byte_len(issue.title@) <= MAX_TITLE_BYTES
            &&& issue.description matches Some(d) ==> byte_len(d@) <= MAX_DESCRIPTION_BYTES
            &&& PRIORITY_CRITICAL <= issue.priority.0 <= PRIORITY_BACKLOG
            &&& issue.created_at <= issue.updated_at
            &&& issue.estimated_minutes matches Some(m) ==> 0 <= m <= MAX_ESTIMATED_MINUTES
            &&& closed_at_constraint(issue)
            &&& issue.closed_at matches Some(c) ==> issue.created_at <= c
            &&& issue.external_ref matches Some(e) ==> byte_len(e@) <= MAX_EXTERNAL_REF_BYTES
                && !any_white(e@)
        },
{
}

/// For a kind other than blocks, parent-child, conditional-blocks and
/// waits-for, the cycle answer never matters: whatever storage says about a
/// cycle, even a failure, the outcome is the same; and an edge between two
/// distinct existing issues that is not yet recorded is accepted.
pub proof fn law_cycle_answer_ignored_outside_the_blocking_kinds(
    dep: Dependency,
    a: Result<bool, BeadsError>,
    b: Result<bool, BeadsError>,
    c1: Result<bool, BeadsError>,
    c2: Result<bool, BeadsError>,
    d: Result<bool, BeadsError>,
    r: Result<(), BeadsError>,
)
    requires
        dep.dep_type != DependencyType::Blocks,
        dep.dep_type != DependencyType::ParentChild,
        dep.dep_type != DependencyType::ConditionalBlocks,
        dep.dep_type != DependencyType::WaitsFor,
    ensures
        dependency_outcome(dep, a, b, c1, d, r) == dependency_outcome(dep, a, b, c2, d, r),
        dep.issue_id@ != dep.depends_on_id@ && a == Ok::<bool, BeadsError>(true) && b == Ok::<
            bool,
            BeadsError,
        >(true) && d == Ok::<bool, BeadsError>(false) && dependency_outcome(dep, a, b, c1, d, r)
            ==> r is Ok,
{
    crate::model::law_blocking_kinds_are_exactly_four(dep.dep_type);
}

/// A label character is an ASCII letter, an ASCII digit, `-`, `_` or `:`.
pub open spec fn allowed_label_char(c: char) -> bool {
    ||| 'a' <= c <= 'z'
    ||| 'A' <= c <= 'Z'
    ||| '0' <= c <= '9'
    ||| c == '-'
    ||| c == '_'
    ||| c == ':'
}

/// A non-empty label of at most 128 bytes is accepted exactly when every
/// character is an ASCII letter, an ASCII digit, `-`, `_` or `:`; any other
/// character (a `.`, a space) gives the invalid-characters error.
pub proof fn law_label_characters(label: Seq<char>)
    requires
        label.len() > 0,
        byte_len(label) <= MAX_LABEL_BYTES,
    ensures
        label_finding(label) is None <==> forall|i: int|
            0 <= i < label.len() ==> allowed_label_char(#[trigger] label[i]),
        (exists|i: int| 0 <= i < label.len() && !allowed_label_char(#[trigger] label[i]))
            ==> label_finding(label) == Some(
            (
                "label"@,
                "invalid characters (only alphanumeric, hyphen, underscore, colon allowed)"@,
            ),
        ),
        label.contains('.') ==> label_finding(label) is Some,
{
    assert forall|c: char| label_char(c) <==> allowed_label_char(c) by {
    }
    if label.contains('.') {
        let i = choose|i: int| 0 <= i < label.len() && label[i] == '.';
        assert(!allowed_label_char(label[i]));
    }
}

/// An external reference holding a carriage return (or any other white
/// space) is reported, and a title made only of carriage returns is blank
/// and reported.
pub proof fn law_carriage_returns_are_reported(issue: Issue)
    ensures
        issue.external_ref matches Some(e) && e@.contains('\r') ==> reports_field(
            issue_findings(issue),
            "external_ref"@,
        ),
        issue.title@.len() > 0 && (forall|i: int|
            0 <= i < issue.title@.len() ==> issue.title@[i] == '\r') ==> reports_field(
            issue_findings(issue),
            "title"@,
        ),
{
    law_broken_issue_rules_name_their_field(issue);
    if let Some(e) = issue.external_ref {
        crate::text::law_carriage_return_is_white_space(e@);
    }
    crate::text::law_carriage_return_is_white_space(issue.title@);
}

} // verus!
