//! Running a list of SQL statements against a database that the caller
//! owns: the runner says which statement to execute next, the caller executes
//! it and reports back, and the runner decides what follows.

use vstd::prelude::*;
use crate::error::{BeadsError, same_error};
use crate::text::{
    ascii_upper,
    ascii_upper_char,
    ascii_upper_seq,
    char_views,
    chars_of,
    contains,
    contains_exec,
    split_chars,
    split_on,
    starts_with,
    starts_with_exec,
    trim,
    trim_bounds,
};

verus! {

// Stale index failures.

/// A line that survives comment stripping: not blank and not a `--` comment.
pub open spec fn kept_line(line: Seq<char>) -> bool {
    trim(line).len() > 0 && !starts_with(trim(line), "--"@)
}

/// The trimmed lines of `lines` that survive comment stripping, in order.
pub open spec fn kept_lines(lines: Seq<Seq<char>>) -> Seq<Seq<char>>
    decreases lines.len(),
{
    if lines.len() == 0 {
        Seq::empty()
    } else {
        let p = kept_lines(lines.drop_last());
        if kept_line(lines.last()) {
            p.push(trim(lines.last()))
        } else {
            p
        }
    }
}

/// `parts` joined with single spaces.
pub open spec fn join_with_space(parts: Seq<Seq<char>>) -> Seq<char>
    decreases parts.len(),
{
    if parts.len() == 0 {
        Seq::empty()
    } else if parts.len() == 1 {
        parts[0]
    } else {
        join_with_space(parts.drop_last()) + seq![' '] + parts.last()
    }
}

/// A statement with its blank lines and `--` comment lines removed, the other
/// lines trimmed and joined with spaces.
pub open spec fn stripped_statement(stmt: Seq<char>) -> Seq<char> {
    join_with_space(kept_lines(split_on(stmt, '\n')))
}

/// The statement creates an index (ignoring case and comment lines).
pub open spec fn creates_index(stmt: Seq<char>) -> bool {
    let upper = ascii_upper_seq(trim(stripped_statement(stmt)));
    starts_with(upper, "CREATE INDEX"@) || starts_with(upper, "CREATE UNIQUE INDEX"@)
}

/// A failed index creation that names a column the engine's cached schema
/// does not know yet; it is retried on the next open, so it can be skipped.
pub open spec fn is_stale_index_failure(stmt: Seq<char>, error: Seq<char>) -> bool {
    creates_index(stmt) && contains(error, "no such column"@)
}

fn append_chars(out: &mut Vec<char>, v: &Vec<char>, lo: usize, hi: usize)
    requires
        lo <= hi <= v.len(),
    ensures
        final(out)@ == old(out)@ + v@.subrange(lo as int, hi as int),
{
    let mut i = lo;
    while i < hi
        invariant
            lo <= i <= hi <= v.len(),
            out@ == old(out)@ + v@.subrange(lo as int, i as int),
        decreases hi - i,
    {
        out.push(v[i]);
        assert(out@ =~= old(out)@ + v@.subrange(lo as int, i + 1));
        i += 1;
    }
}

/// The statement with comment lines stripped (see [`stripped_statement`]).
fn strip_statement(stmt: &str) -> (r: Vec<char>)
    ensures
        r@ == stripped_statement(stmt@),
{
    let v = chars_of(stmt);
    let lines = split_chars(&v, '\n');
    let ghost lv = char_views(lines@);
    let dashes = chars_of("--");
    let mut out: Vec<char> = Vec::new();
    let mut any = false;
    let mut k: usize = 0;
    assert(lv.subrange(0, 0) =~= Seq::<Seq<char>>::empty());
    while k < lines.len()
        invariant
            k <= lines.len(),
            lv == char_views(lines@),
            lv == split_on(stmt@, '\n'),
            dashes@ == "--"@,
            out@ == join_with_space(kept_lines(lv.subrange(0, k as int))),
            any == (kept_lines(lv.subrange(0, k as int)).len() > 0),
        decreases lines.len() - k,
    {
        let ghost pre = lv.subrange(0, k as int);
        assert(lv.subrange(0, k + 1).drop_last() =~= pre);
        assert(lv.subrange(0, k + 1).last() == lv[k as int]);
        let line = &lines[k];
        assert(line@ == lv[k as int]);
        let (a, b) = trim_bounds(line, 0, line.len());
        assert(line@.subrange(0, line@.len() as int) =~= line@);
        let mut t: Vec<char> = Vec::new();
        append_chars(&mut t, line, a, b);
        assert(t@ =~= trim(lv[k as int]));
        if a < b && !starts_with_exec(&t, &dashes) {
            let ghost before = kept_lines(pre);
            if any {
                out.push(' ');
            }
            append_chars(&mut out, line, a, b);
            assert(kept_lines(lv.subrange(0, k + 1)) == before.push(t@));
            assert(before.push(t@).drop_last() =~= before);
            assert(out@ =~= join_with_space(before.push(t@)));
            any = true;
        }
        k += 1;
    }
    assert(lv.subrange(0, lines.len() as int) =~= lv);
    out
}

/// Whether a failure of `stmt` with the message `error` can be skipped
/// (see [`is_stale_index_failure`]).
pub fn stale_index_failure(stmt: &str, error: &str) -> (r: bool)
    ensures
        r == is_stale_index_failure(stmt@, error@),
{
    let stripped = strip_statement(stmt);
    let (a, b) = trim_bounds(&stripped, 0, stripped.len());
    assert(stripped@.subrange(0, stripped@.len() as int) =~= stripped@);
    let mut upper: Vec<char> = Vec::new();
    let mut i = a;
    while i < b
        invariant
            a <= i <= b <= stripped.len(),
            upper@ == ascii_upper_seq(stripped@.subrange(a as int, i as int)),
        decreases b - i,
    {
        upper.push(ascii_upper_char(stripped[i]));
        assert(upper@ =~= ascii_upper_seq(stripped@.subrange(a as int, i + 1)));
        i += 1;
    }
    let is_index = starts_with_exec(&upper, &chars_of("CREATE INDEX")) || starts_with_exec(
        &upper,
        &chars_of("CREATE UNIQUE INDEX"),
    );
    is_index && contains_exec(&chars_of(error), &chars_of("no such column"))
}

// Scripts.

/// What a failure of a statement leads to.
#[derive(Debug)]
pub enum OnFailure {
    /// The script stops with the failure.
    Abort,
    /// The given statements run (their own failures ignored), then the script
    /// stops with the failure.
    Cleanup(Vec<String>),
    /// A stale index failure (see [`is_stale_index_failure`]) is skipped;
    /// any other failure stops the script.
    SkipStaleIndex,
    /// The failure is ignored.
    Ignore,
}

/// One step of a script.
#[derive(Debug)]
pub enum Op {
    /// Execute a statement.
    Run { sql: String, on_failure: OnFailure },
    /// Stop with `error`, after running `cleanup` (failures ignored).
    Raise { error: BeadsError, cleanup: Vec<String> },
}

/// What the runner asks for next.
#[derive(Debug)]
pub enum Step {
    /// Execute this statement and report the outcome.
    Execute(String),
    /// The script is over, with this result.
    Finished(Result<(), BeadsError>),
}

/// The runner of one script.
pub struct ScriptRun {
    ops: Vec<Op>,
    /// Index of the statement being executed, in normal running.
    pc: usize,
    /// Cleanup statements being run after a failure.
    cleanup: Vec<String>,
    cleanup_pc: usize,
    /// The failure that ends the script, while the cleanup runs.
    error: Option<BeadsError>,
    done: bool,
}

fn copy_strings(v: &Vec<String>) -> (r: Vec<String>)
    ensures
        r@ == v@,
{
    let mut r: Vec<String> = Vec::new();
    let mut i: usize = 0;
    while i < v.len()
        invariant
            i <= v.len(),
            r@ == v@.subrange(0, i as int),
        decreases v.len() - i,
    {
        r.push(v[i].clone());
        assert(r@ =~= v@.subrange(0, i + 1));
        i += 1;
    }
    assert(v@.subrange(0, v.len() as int) =~= v@);
    r
}

/// The text of a failure (empty for a success).
pub open spec fn failure_text(outcome: Result<(), String>) -> Seq<char> {
    match outcome {
        Ok(()) => Seq::empty(),
        Err(m) => m@,
    }
}

/// The outcome of `op` lets the script go on: a success, an ignored failure,
/// or a skipped stale index failure.
pub open spec fn continues(op: Op, outcome: Result<(), String>) -> bool {
    ||| outcome is Ok
    ||| op matches Op::Run { on_failure: OnFailure::Ignore, .. }
    ||| op matches Op::Run { on_failure: OnFailure::SkipStaleIndex, sql } && is_stale_index_failure(
        sql@,
        failure_text(outcome),
    )
}

/// The cleanup statements of `op` (none unless it has some).
pub open spec fn cleanup_of(op: Op) -> Seq<String> {
    match op {
        Op::Run { on_failure: OnFailure::Cleanup(c), .. } => c@,
        _ => Seq::empty(),
    }
}

/// The script ended with a database error carrying `text`.
pub open spec fn finished_with_database_error(st: Step, text: Seq<char>) -> bool {
    st matches Step::Finished(Err(BeadsError::Database(m))) && m@ == text
}

/// `st` is what the step `op`, which raises an error, leads to: the error
/// itself when it has no cleanup, else its first cleanup statement, with the
/// error pending.
pub open spec fn raises(op: Op, after: ScriptRun, st: Step) -> bool {
    op matches Op::Raise { error, cleanup } && if cleanup@.len() == 0 {
        st matches Step::Finished(Err(e)) && same_error(e, error)
    } else {
        (st matches Step::Execute(s) && s@ == cleanup@[0]@) && after.waiting()
            && after.cleaning_up() && same_error(after.pending(), error)
    }
}

impl ScriptRun {
    /// The step being run.
    pub closed spec fn current(self) -> Op {
        self.ops@[self.pc as int]
    }

    /// The statement whose outcome is awaited.
    pub closed spec fn awaited(self) -> Seq<char> {
        if self.error is Some {
            self.cleanup@[self.cleanup_pc as int]@
        } else {
            match self.ops@[self.pc as int] {
                Op::Run { sql, .. } => sql@,
                Op::Raise { .. } => Seq::empty(),
            }
        }
    }

    /// The runner is waiting for the outcome of a statement.
    pub closed spec fn waiting(self) -> bool {
        &&& !self.done
        &&& self.error is Some ==> self.cleanup_pc < self.cleanup@.len()
        &&& self.error is None ==> self.pc < self.ops@.len() && self.ops@[self.pc as int] is Run
    }

    /// The runner is cleaning up after a failure.
    pub closed spec fn cleaning_up(self) -> bool {
        self.error is Some
    }

    /// The failure that ends the script once the cleanup is over.
    pub closed spec fn pending(self) -> BeadsError {
        self.error->0
    }

    /// Outside cleanup, the step being run is the script's step at the
    /// runner's position.
    pub proof fn lemma_current_is_at_position(self)
        requires
            self.waiting(),
            !self.cleaning_up(),
        ensures
            0 <= self.position() < self.script().len(),
            self.current() == self.script()[self.position()],
    {
    }

    /// The script being run.
    pub closed spec fn script(self) -> Seq<Op> {
        self.ops@
    }

    /// Index, in the script, of the step being run.
    pub closed spec fn position(self) -> int {
        self.pc as int
    }

    /// Moves to the script step `k`, or ends the script.
    fn dispatch(&mut self, k: usize) -> (st: Step)
        requires
            k <= old(self).ops@.len(),
            old(self).error is None,
            !old(self).done,
        ensures
            final(self).ops@ == old(self).ops@,
            st is Execute ==> final(self).waiting() && (st matches Step::Execute(s) && s@ == final(self).awaited()),
            st is Finished ==> final(self).done,
            k == old(self).ops@.len() ==> st matches Step::Finished(Ok(())),
            k < old(self).ops@.len() && old(self).ops@[k as int] is Run ==> st is Execute
                && final(self).pc == k && !final(self).cleaning_up(),
            k < old(self).ops@.len() && old(self).ops@[k as int] is Raise ==> raises(
                old(self).ops@[k as int],
                *final(self),
                st,
            ),
    {
        self.pc = k;
        if k == self.ops.len() {
            self.done = true;
            return Step::Finished(Ok(()));
        }
        let (raised, next) = match &self.ops[k] {
            Op::Run { sql, .. } => {
                return Step::Execute(sql.clone());
            },
            Op::Raise { error, cleanup } => (error.duplicate(), copy_strings(cleanup)),
        };
        self.start_cleanup(raised, next)
    }

    /// Runs `cleanup`, then ends the script with `error`.
    fn start_cleanup(&mut self, error: BeadsError, cleanup: Vec<String>) -> (st: Step)
        requires
            !old(self).done,
        ensures
            final(self).ops@ == old(self).ops@,
            final(self).pc == old(self).pc,
            cleanup@.len() == 0 ==> (st matches Step::Finished(Err(e)) && same_error(e, error))
                && final(self).done,
            cleanup@.len() > 0 ==> (st matches Step::Execute(s) && s@ == cleanup@[0]@)
                && final(self).waiting() && final(self).cleaning_up() && final(self).awaited()
                == cleanup@[0]@ && final(self).pending() == error,
    {
        if cleanup.len() == 0 {
            self.done = true;
            return Step::Finished(Err(error));
        }
        let first = cleanup[0].clone();
        self.cleanup = cleanup;
        self.cleanup_pc = 0;
        self.error = Some(error);
        Step::Execute(first)
    }

    /// Starts running `ops`.
    pub fn start(ops: Vec<Op>) -> (r: (ScriptRun, Step))
        ensures
            r.0.script() == ops@,
            ops@.len() == 0 ==> r.1 matches Step::Finished(Ok(())),
            ops@.len() > 0 && ops@[0] is Run ==> (r.1 matches Step::Execute(s) && s@
                == ops@[0]->sql@) && r.0.waiting() && r.0.position() == 0 && !r.0.cleaning_up(),
            ops@.len() > 0 && ops@[0] is Raise ==> raises(ops@[0], r.0, r.1),
            r.1 is Execute ==> r.0.waiting(),
    {
        let mut run = ScriptRun {
            ops,
            pc: 0,
            cleanup: Vec::new(),
            cleanup_pc: 0,
            error: None,
            done: false,
        };
        let st = run.dispatch(0);
        (run, st)
    }

    /// Takes the outcome of the awaited statement (`Err` carries the
    /// failure's text) and says what follows.
    pub fn resume(&mut self, outcome: Result<(), String>) -> (st: Step)
        requires
            old(self).waiting(),
        ensures
            st is Execute ==> final(self).waiting() && (st matches Step::Execute(s) && s@ == final(self).awaited()),
            final(self).script() == old(self).script(),
            // A statement of the script that succeeded, or whose failure is
            // ignored or skipped, leads to the next step of the script.
            !old(self).cleaning_up() && continues(old(self).current(), outcome) ==> {
                &&& old(self).position() + 1 == old(self).script().len() ==> (st matches Step::Finished(Ok(())))
                &&& old(self).position() + 1 < old(self).script().len() && old(self).script()[old(self).position() + 1] is Run
                    ==> (st matches Step::Execute(q) && q@ == old(self).script()[old(self).position() + 1]->sql@)
                    && final(self).position() == old(self).position() + 1
                    && !final(self).cleaning_up()
                &&& old(self).position() + 1 < old(self).script().len() && old(self).script()[old(self).position() + 1] is Raise
                    ==> raises(old(self).script()[old(self).position() + 1], *final(self), st)
            },
            // A failure that stops the script reports the failure's text.
            !old(self).cleaning_up() && !continues(old(self).current(), outcome) && cleanup_of(
                old(self).current(),
            ).len() == 0 ==> finished_with_database_error(st, failure_text(outcome)),
            // A failure with cleanup runs the cleanup statements first.
            !old(self).cleaning_up() && !continues(old(self).current(), outcome) && cleanup_of(
                old(self).current(),
            ).len() > 0 ==> (st matches Step::Execute(s) && s@ == cleanup_of(
                old(self).current(),
            )[0]@) && final(self).cleaning_up() && (final(self).pending() matches BeadsError::Database(m)
                && m@ == failure_text(outcome)),
            // Cleanup statements run one after the other whatever their
            // outcome; then the script stops with the pending failure.
            old(self).cleaning_up() && st is Execute ==> final(self).cleaning_up()
                && final(self).pending() == old(self).pending(),
            old(self).cleaning_up() && st is Finished ==> st == Step::Finished(
                Err(old(self).pending()),
            ),
    {
        proof {
            if self.error is Some {
                assert(self.cleanup_pc < self.cleanup@.len());
            } else {
                assert(self.pc < self.ops@.len());
            }
        }
        let n_cleanup = self.cleanup.len();
        let n_ops = self.ops.len();
        if self.error.is_some() {
            let k = self.cleanup_pc + 1;
            if k < self.cleanup.len() {
                self.cleanup_pc = k;
                return Step::Execute(self.cleanup[k].clone());
            }
            self.done = true;
            let e = self.error.take().unwrap();
            return Step::Finished(Err(e));
        }
        let pc = self.pc;
        let proceed = match &outcome {
            Ok(()) => true,
            Err(m) => match &self.ops[pc] {
                Op::Run { sql, on_failure } => match on_failure {
                    OnFailure::Ignore => true,
                    OnFailure::SkipStaleIndex => stale_index_failure(sql.as_str(), m.as_str()),
                    _ => false,
                },
                Op::Raise { .. } => false,
            },
        };
        if proceed {
            return self.dispatch(pc + 1);
        }
        let message = match outcome {
            Ok(()) => String::new(),
            Err(m) => m,
        };
        let cleanup = match &self.ops[pc] {
            Op::Run { on_failure, .. } => match on_failure {
                OnFailure::Cleanup(c) => Some(copy_strings(c)),
                _ => None,
            },
            Op::Raise { .. } => None,
        };
        match cleanup {
            Some(c) => self.start_cleanup(BeadsError::Database(message), c),
            None => {
                self.done = true;
                Step::Finished(Err(BeadsError::Database(message)))
            },
        }
    }
}

} // verus!
