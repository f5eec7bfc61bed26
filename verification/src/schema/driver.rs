//! Setting up the schema of a database that the caller owns.
//!
//! A setup is a state machine. It asks the caller for something (a report
//! on the database's layout, its journal mode, or the execution of one
//! statement), the caller does it and replies, and the setup decides what to
//! ask next, until it finishes with a result.

use vstd::prelude::*;
use crate::error::BeadsError;
use crate::sql_split::sql_statements;
use super::facts::{Snapshot, issues_column_order_matches, table_exists, table_exists_exec};
use super::plan::{
    FailView,
    OpView,
    error_view,
    run,
    batch,
    checkpoint_ops,
    checkpoint_plan,
    extend_ops,
    migration_ops,
    migration_plan,
    ops_view,
    pragma_ops,
    pragma_plan,
    pre_schema_ops,
    pre_schema_plan,
    schema_ops,
    schema_plan,
    stamp_ops,
    stamp_plan,
};
use super::script::{
    is_stale_index_failure,
    OnFailure,
    Op,
    ScriptRun,
    Step,
    cleanup_of,
    continues,
    failure_text,
    raises,
};

verus! {

/// What a setup asks of the caller.
#[derive(Debug)]
pub enum Request {
    /// Report the database's layout as a [`Snapshot`].
    Inspect,
    /// Report the journal mode (`PRAGMA journal_mode`), or an empty text
    /// when it cannot be read.
    ReadJournalMode,
    /// Execute this statement and report its outcome.
    Execute(String),
    /// The setup is over, with this result.
    Finished(Result<(), BeadsError>),
}

/// What the caller reports back.
#[derive(Debug)]
pub enum Reply {
    /// The database's layout.
    Inspected(Snapshot),
    /// The journal mode.
    JournalMode(String),
    /// The outcome of the statement; a failure carries its text.
    Executed(Result<(), String>),
}

/// Which setup runs.
#[derive(Clone, Copy, PartialEq, Eq, Structural, Debug)]
pub enum Flow {
    /// Repairs, schema, upgrades (on an existing database) and settings.
    Full,
    /// Schema, upgrades and settings, for a database whose layout is known
    /// to be compatible.
    Compatible,
    /// Settings alone.
    PragmasOnly,
}

/// Where a setup stands.
#[derive(Clone, Copy, PartialEq, Eq, Structural, Debug)]
pub enum Stage {
    /// Waiting for the layout before the repairs.
    AwaitLayout,
    /// Running the repairs and the schema statements.
    Repairs,
    /// Waiting for the layout before the upgrades.
    AwaitUpgradeLayout,
    /// Running the upgrades.
    Upgrades,
    /// Waiting for the journal mode.
    AwaitJournalMode,
    /// Running the connection settings.
    Settings,
    /// Finished.
    Done,
}

/// The stage runs a script.
pub open spec fn is_running(stage: Stage) -> bool {
    stage == Stage::Repairs || stage == Stage::Upgrades || stage == Stage::Settings
}

/// The stage that follows a script of `stage` that succeeded: a fresh
/// database needs no upgrades.
pub open spec fn after_script(flow: Flow, fresh: bool, stage: Stage) -> Stage {
    match stage {
        Stage::Repairs => if flow == Flow::Full && fresh {
            Stage::AwaitJournalMode
        } else {
            Stage::AwaitUpgradeLayout
        },
        Stage::Upgrades => Stage::AwaitJournalMode,
        _ => Stage::Done,
    }
}

/// What a setup asks for on entering a stage that does not run a script.
pub open spec fn request_for(stage: Stage) -> Request {
    match stage {
        Stage::AwaitLayout => Request::Inspect,
        Stage::AwaitUpgradeLayout => Request::Inspect,
        Stage::AwaitJournalMode => Request::ReadJournalMode,
        _ => Request::Finished(Ok(())),
    }
}

/// The script that the repairs stage runs, given the layout `s`.
pub open spec fn repairs_plan(s: Snapshot) -> Seq<OpView> {
    pre_schema_plan(s) + schema_plan() + if !table_exists(s, "issues"@) {
        stamp_plan()
    } else {
        Seq::empty()
    }
}

/// The script that the upgrades stage runs, given the layout `s`.
pub open spec fn upgrades_plan(s: Snapshot, issues_rebuilt: bool) -> Seq<OpView> {
    migration_plan(s, issues_rebuilt) + stamp_plan()
}

/// The script that the settings stage runs, given the journal mode.
pub open spec fn settings_plan(journal_mode: Seq<char>, fresh: bool) -> Seq<OpView> {
    pragma_plan(journal_mode) + if fresh {
        checkpoint_plan()
    } else {
        Seq::empty()
    }
}

/// The runner's step that a request passes on.
pub open spec fn step_of(req: Request) -> Step {
    match req {
        Request::Execute(s) => Step::Execute(s),
        Request::Finished(r) => Step::Finished(r),
        _ => Step::Finished(Ok(())),
    }
}

/// A setup in progress.
pub struct SchemaSetup {
    flow: Flow,
    stage: Stage,
    fresh: bool,
    issues_rebuilt: bool,
    run: ScriptRun,
}

/// `after` has just started the script `plan` of `stage`, and `req` is its
/// first request: the first statement, or what follows an empty script.
pub open spec fn begins(after: SchemaSetup, req: Request, stage: Stage, plan: Seq<OpView>) -> bool {
    &&& after.script() == plan
    &&& plan.len() > 0 && plan[0] is Run ==> (req matches Request::Execute(s) && s@ == plan[0]->Run_0)
        && after.stage() == stage
    &&& plan.len() == 0 ==> after.stage() == after_script(after.flow(), after.fresh(), stage) && req
        == request_for(after.stage())
    &&& plan.len() > 0 && plan[0] is Raise && plan[0]->Raise_1.len() == 0 ==> (req matches Request::Finished(
        Err(e),
    ) && error_view(e) == plan[0]->Raise_0) && after.stage() == Stage::Done
    &&& plan.len() > 0 && plan[0] is Raise && plan[0]->Raise_1.len() > 0 ==> (req matches Request::Execute(q)
        && q@ == plan[0]->Raise_1[0]) && after.stage() == stage
}

impl SchemaSetup {
    pub closed spec fn flow(self) -> Flow {
        self.flow
    }

    pub closed spec fn stage(self) -> Stage {
        self.stage
    }

    /// The database had no issues table when the setup began.
    pub closed spec fn fresh(self) -> bool {
        self.fresh
    }

    /// The repairs rebuild the issues table.
    pub closed spec fn issues_rebuilt(self) -> bool {
        self.issues_rebuilt
    }

    /// The runner of the current (or last) script.
    pub closed spec fn runner(self) -> ScriptRun {
        self.run
    }

    /// The current (or last) script.
    pub open spec fn script(self) -> Seq<OpView> {
        ops_view(self.runner().script())
    }

    /// The setup's invariant: a stage that runs a script waits for the
    /// outcome of a statement.
    pub open spec fn wf(self) -> bool {
        is_running(self.stage()) ==> self.runner().waiting()
    }

    /// `reply` answers what the setup asked for.
    pub open spec fn accepts(self, reply: Reply) -> bool {
        match self.stage() {
            Stage::AwaitLayout => reply is Inspected,
            Stage::AwaitUpgradeLayout => reply is Inspected,
            Stage::AwaitJournalMode => reply is JournalMode,
            Stage::Done => false,
            _ => reply is Executed,
        }
    }

    /// Turns what the script runner says into the setup's request.
    fn advance(&mut self, st: Step) -> (req: Request)
        requires
            is_running(old(self).stage),
            st is Execute ==> old(self).run.waiting(),
        ensures
            final(self).run == old(self).run,
            final(self).flow == old(self).flow,
            final(self).fresh == old(self).fresh,
            final(self).issues_rebuilt == old(self).issues_rebuilt,
            final(self).wf(),
            req is Finished ==> final(self).stage == Stage::Done,
            st matches Step::Execute(s) ==> req == Request::Execute(s) && final(self).stage
                == old(self).stage,
            st matches Step::Finished(Err(e)) ==> req == Request::Finished(Err(e))
                && final(self).stage == Stage::Done,
            st matches Step::Finished(Ok(())) ==> final(self).stage == after_script(
                old(self).flow,
                old(self).fresh,
                old(self).stage,
            ) && req == request_for(final(self).stage),
    {
        match st {
            Step::Execute(s) => Request::Execute(s),
            Step::Finished(Err(e)) => {
                self.stage = Stage::Done;
                Request::Finished(Err(e))
            },
            Step::Finished(Ok(())) => {
                let next = match self.stage {
                    Stage::Repairs => if self.flow == Flow::Full && self.fresh {
                        Stage::AwaitJournalMode
                    } else {
                        Stage::AwaitUpgradeLayout
                    },
                    Stage::Upgrades => Stage::AwaitJournalMode,
                    _ => Stage::Done,
                };
                self.stage = next;
                match next {
                    Stage::AwaitUpgradeLayout => Request::Inspect,
                    Stage::AwaitJournalMode => Request::ReadJournalMode,
                    _ => Request::Finished(Ok(())),
                }
            },
        }
    }

    /// Starts the script `ops` of `stage`.
    fn begin(&mut self, ops: Vec<Op>, stage: Stage) -> (req: Request)
        requires
            is_running(stage),
        ensures
            final(self).flow == old(self).flow,
            final(self).fresh == old(self).fresh,
            final(self).issues_rebuilt == old(self).issues_rebuilt,
            final(self).wf(),
            begins(*final(self), req, stage, ops_view(ops@)),
            req is Execute ==> final(self).stage == stage,
            req is Finished ==> final(self).stage == Stage::Done,
            ops@.len() > 0 && ops@[0] is Raise ==> raises(ops@[0], final(self).run, step_of(req)),
    {
        let ghost v = ops@;
        let (run, st) = ScriptRun::start(ops);
        self.run = run;
        self.stage = stage;
        let req = self.advance(st);
        proof {
            if v.len() > 0 {
                assert(ops_view(v)[0] == super::plan::op_view(v[0]));
                if let Op::Raise { error, cleanup } = v[0] {
                    assert(super::plan::texts(cleanup@).len() == cleanup@.len());
                    if cleanup@.len() > 0 {
                        assert(super::plan::texts(cleanup@)[0] == cleanup@[0]@);
                    }
                }
            }
        }
        req
    }

    /// Takes the caller's reply to the last request and says what the setup
    /// asks for next.
    pub fn step(&mut self, reply: Reply) -> (req: Request)
        requires
            old(self).wf(),
            old(self).accepts(reply),
        ensures
            final(self).wf(),
            final(self).flow() == old(self).flow(),
            req is Execute ==> is_running(final(self).stage()),
            req is Finished ==> final(self).stage() == Stage::Done,
            // The layout before the repairs fixes the repairs script.
            old(self).stage() == Stage::AwaitLayout ==> (reply matches Reply::Inspected(s) && {
                &&& final(self).fresh() == !table_exists(s, "issues"@)
                &&& final(self).issues_rebuilt() == !issues_column_order_matches(s)
                &&& begins(*final(self), req, Stage::Repairs, repairs_plan(s))
            }),
            // The layout before the upgrades fixes the upgrades script.
            old(self).stage() == Stage::AwaitUpgradeLayout ==> (reply matches Reply::Inspected(s) && {
                &&& final(self).fresh() == old(self).fresh()
                &&& final(self).issues_rebuilt() == old(self).issues_rebuilt()
                &&& begins(
                    *final(self),
                    req,
                    Stage::Upgrades,
                    upgrades_plan(s, old(self).issues_rebuilt()),
                )
            }),
            // The journal mode fixes the settings script.
            old(self).stage() == Stage::AwaitJournalMode ==> (reply matches Reply::JournalMode(m) && {
                &&& final(self).fresh() == old(self).fresh()
                &&& begins(*final(self), req, Stage::Settings, settings_plan(m@, old(self).fresh()))
            }),
            // The outcome of a statement goes to the script's runner.
            is_running(old(self).stage()) ==> (reply matches Reply::Executed(outcome) && {
                let r = old(self).runner();
                &&& final(self).script() == old(self).script()
                &&& final(self).fresh() == old(self).fresh()
                &&& final(self).issues_rebuilt() == old(self).issues_rebuilt()
                &&& !r.cleaning_up() && continues(r.current(), outcome) && r.position() + 1
                    == r.script().len() ==> final(self).stage() == after_script(
                    old(self).flow(),
                    old(self).fresh(),
                    old(self).stage(),
                ) && req == request_for(final(self).stage())
                &&& !r.cleaning_up() && continues(r.current(), outcome) && r.position() + 1
                    < r.script().len() && r.script()[r.position() + 1] is Run ==> (req matches Request::Execute(q)
                    && q@ == r.script()[r.position() + 1]->sql@) && final(self).stage() == old(self).stage()
                &&& !r.cleaning_up() && continues(r.current(), outcome) && r.position() + 1
                    < r.script().len() && r.script()[r.position() + 1] is Raise ==> raises(
                    r.script()[r.position() + 1],
                    final(self).runner(),
                    step_of(req),
                )
                &&& !r.cleaning_up() && !continues(r.current(), outcome) && cleanup_of(
                    r.current(),
                ).len() == 0 ==> (req matches Request::Finished(Err(BeadsError::Database(m)))
                    && m@ == failure_text(outcome))
                &&& !r.cleaning_up() && !continues(r.current(), outcome) && cleanup_of(
                    r.current(),
                ).len() > 0 ==> (req matches Request::Execute(q) && q@ == cleanup_of(
                    r.current(),
                )[0]@) && final(self).stage() == old(self).stage() && (final(self).runner().pending() matches BeadsError::Database(m) && m@ == failure_text(
                    outcome,
                ))
                &&& r.cleaning_up() && req is Execute ==> final(self).runner().cleaning_up()
                    && final(self).runner().pending() == r.pending()
                &&& r.cleaning_up() && !(req is Execute) ==> req == Request::Finished(
                    Err(r.pending()),
                )
            }),
    {
        match reply {
            Reply::Inspected(s) => {
                if self.stage == Stage::AwaitLayout {
                    self.fresh = !table_exists_exec(&s, "issues");
                    let (mut ops, rebuilt) = pre_schema_ops(&s);
                    self.issues_rebuilt = rebuilt;
                    extend_ops(&mut ops, schema_ops());
                    if self.fresh {
                        extend_ops(&mut ops, stamp_ops());
                    } else {
                        assert(ops_view(ops@) =~= ops_view(ops@) + Seq::<OpView>::empty());
                    }
                    self.begin(ops, Stage::Repairs)
                } else {
                    let mut ops = migration_ops(&s, self.issues_rebuilt);
                    extend_ops(&mut ops, stamp_ops());
                    self.begin(ops, Stage::Upgrades)
                }
            },
            Reply::JournalMode(m) => {
                let mut ops = pragma_ops(m.as_str());
                if self.fresh {
                    extend_ops(&mut ops, checkpoint_ops());
                } else {
                    assert(ops_view(ops@) =~= ops_view(ops@) + Seq::<OpView>::empty());
                }
                self.begin(ops, Stage::Settings)
            },
            Reply::Executed(outcome) => {
                let st = self.run.resume(outcome);
                self.advance(st)
            },
        }
    }
}

/// Starts the full setup of the schema: repairs of legacy layouts, the
/// schema statements, the upgrades of an existing database (a fresh one has
/// nothing to upgrade and is stamped with the current version at once), and
/// the connection settings.
pub fn apply_schema() -> (r: (SchemaSetup, Request))
    ensures
        r.0.wf(),
        r.0.flow() == Flow::Full,
        r.0.stage() == Stage::AwaitLayout,
        r.1 is Inspect,
{
    let (run, _) = ScriptRun::start(Vec::new());
    let setup = SchemaSetup {
        flow: Flow::Full,
        stage: Stage::AwaitLayout,
        fresh: false,
        issues_rebuilt: false,
        run,
    };
    (setup, Request::Inspect)
}

/// Starts the setup of a database whose layout is already compatible: the
/// schema statements, the upgrades and the connection settings.
pub fn apply_runtime_compatible_schema() -> (r: (SchemaSetup, Request))
    ensures
        r.0.wf(),
        r.0.flow() == Flow::Compatible,
        !r.0.fresh(),
        !r.0.issues_rebuilt(),
        begins(r.0, r.1, Stage::Repairs, schema_plan()),
{
    let (run, _) = ScriptRun::start(Vec::new());
    let mut setup = SchemaSetup {
        flow: Flow::Compatible,
        stage: Stage::AwaitLayout,
        fresh: false,
        issues_rebuilt: false,
        run,
    };
    let req = setup.begin(schema_ops(), Stage::Repairs);
    (setup, req)
}

/// Starts applying the connection settings alone.
pub fn apply_runtime_pragmas() -> (r: (SchemaSetup, Request))
    ensures
        r.0.wf(),
        r.0.flow() == Flow::PragmasOnly,
        r.0.stage() == Stage::AwaitJournalMode,
        !r.0.fresh(),
        r.1 is ReadJournalMode,
{
    let (run, _) = ScriptRun::start(Vec::new());
    let setup = SchemaSetup {
        flow: Flow::PragmasOnly,
        stage: Stage::AwaitJournalMode,
        fresh: false,
        issues_rebuilt: false,
        run,
    };
    (setup, Request::ReadJournalMode)
}

/// Starts executing the statements of `sql` one by one, skipping the
/// failures of index creations that name a column the engine's cached schema
/// does not know yet (see [`super::script::is_stale_index_failure`]).
pub fn execute_batch(sql: &str) -> (r: (ScriptRun, Step))
    ensures
        ops_view(r.0.script()) == batch(sql_statements(sql@)),
        sql_statements(sql@).len() == 0 ==> r.1 matches Step::Finished(Ok(())),
        sql_statements(sql@).len() > 0 ==> (r.1 matches Step::Execute(s) && s@ == sql_statements(
            sql@,
        )[0]) && r.0.waiting() && r.0.position() == 0 && !r.0.cleaning_up(),
        r.1 is Execute ==> r.0.waiting(),
{
    let mut ops: Vec<Op> = Vec::new();
    super::plan::push_batch(&mut ops, sql);
    assert(ops_view(ops@) =~= batch(sql_statements(sql@)));
    assert(ops_view(ops@).len() == ops@.len());
    proof {
        if ops@.len() > 0 {
            assert(ops_view(ops@)[0] == super::plan::op_view(ops@[0]));
        }
    }
    assert(batch(sql_statements(sql@)).len() == sql_statements(sql@).len());
    let r = ScriptRun::start(ops);
    r
}

// Laws.

/// A fresh database gets the current version stamped by its repairs script
/// and goes on to the settings: it is never upgraded.
pub proof fn law_fresh_database_skips_upgrades(s: Snapshot)
    requires
        !table_exists(s, "issues"@),
    ensures
        repairs_plan(s) == pre_schema_plan(s) + schema_plan() + stamp_plan(),
        repairs_plan(s).last() == run("PRAGMA user_version = 4"@),
        after_script(Flow::Full, true, Stage::Repairs) == Stage::AwaitJournalMode,
{
}

/// An existing database is inspected again and upgraded after the schema
/// statements, and its upgrades end by stamping the current version.
pub proof fn law_existing_database_is_upgraded_then_stamped(
    s: Snapshot,
    later: Snapshot,
    issues_rebuilt: bool,
)
    requires
        table_exists(s, "issues"@),
    ensures
        repairs_plan(s) == pre_schema_plan(s) + schema_plan(),
        after_script(Flow::Full, false, Stage::Repairs) == Stage::AwaitUpgradeLayout,
        request_for(Stage::AwaitUpgradeLayout) is Inspect,
        upgrades_plan(later, issues_rebuilt).last() == run("PRAGMA user_version = 4"@),
        after_script(Flow::Full, false, Stage::Upgrades) == Stage::AwaitJournalMode,
{
    assert(repairs_plan(s) =~= pre_schema_plan(s) + schema_plan());
}

/// Every settings statement stops the setup when it fails, except the
/// checkpoint that closes the setup of a fresh database.
pub proof fn law_only_the_fresh_checkpoint_may_fail(journal_mode: Seq<char>, fresh: bool)
    ensures
        forall|i: int|
            0 <= i < settings_plan(journal_mode, fresh).len() ==> {
                let op = #[trigger] settings_plan(journal_mode, fresh)[i];
                &&& op is Run
                &&& op->Run_1 == FailView::Abort || (fresh && i == settings_plan(
                    journal_mode,
                    fresh,
                ).len() - 1 && op->Run_1 == FailView::Ignore)
            },
        fresh ==> settings_plan(journal_mode, fresh).last() == checkpoint_plan()[0],
        !fresh ==> settings_plan(journal_mode, fresh) == pragma_plan(journal_mode),
{
    let p = pragma_plan(journal_mode);
    let sp = settings_plan(journal_mode, fresh);
    assert forall|i: int| 0 <= i < sp.len() implies {
        let op = #[trigger] sp[i];
        &&& op is Run
        &&& op->Run_1 == FailView::Abort || (fresh && i == sp.len() - 1 && op->Run_1
            == FailView::Ignore)
    } by {
        if i < p.len() {
            assert(sp[i] == p[i]);
        }
    }
    if !fresh {
        assert(sp =~= p);
    }
}

// Whole batches.

/// A database answer as plain values: success, or the failure's text.
pub open spec fn answer_view(a: Result<(), String>) -> Result<(), Seq<char>> {
    match a {
        Ok(()) => Ok(()),
        Err(m) => Err(m@),
    }
}

pub open spec fn answer_views(v: Seq<Result<(), String>>) -> Seq<Result<(), Seq<char>>> {
    v.map_values(|a: Result<(), String>| answer_view(a))
}

/// The run of the batch statements `stmts` from the `k`-th on, when the
/// database answers `answers[i]` to the `i`-th: the statements run in order;
/// the first failure that is not a stale index failure ends the run with its
/// text, and the later statements never run; otherwise the run succeeds.
/// The result holds the number of statements executed.
pub open spec fn batch_run(stmts: Seq<Seq<char>>, answers: Seq<Result<(), Seq<char>>>, k: int) -> (
    int,
    Result<(), Seq<char>>,
)
    decreases stmts.len() - k,
{
    if k < 0 || k >= stmts.len() {
        (k, Ok(()))
    } else {
        match answers[k] {
            Err(m) => if is_stale_index_failure(stmts[k], m) {
                batch_run(stmts, answers, k + 1)
            } else {
                (k + 1, Err(m))
            },
            Ok(()) => batch_run(stmts, answers, k + 1),
        }
    }
}

/// Runs the statements of `sql` to the end with [`execute_batch`], the
/// database answering `answers[k]` to the `k`-th statement, and gives how
/// many statements were executed and the result (see [`batch_run`]).
pub fn run_batch(sql: &str, answers: &Vec<Result<(), String>>) -> (r: (usize, Result<(), BeadsError>))
    requires
        answers@.len() >= sql_statements(sql@).len(),
    ensures
        r.0 == batch_run(sql_statements(sql@), answer_views(answers@), 0).0,
        match batch_run(sql_statements(sql@), answer_views(answers@), 0).1 {
            Ok(()) => r.1 is Ok,
            Err(m) => r.1 matches Err(BeadsError::Database(e)) && e@ == m,
        },
{
    let ghost stmts = sql_statements(sql@);
    let ghost av = answer_views(answers@);
    let ghost whole = batch_run(stmts, av, 0);
    let (mut run, mut st) = execute_batch(sql);
    let mut k: usize = 0;
    loop
        invariant
            stmts == sql_statements(sql@),
            av == answer_views(answers@),
            whole == batch_run(stmts, av, 0),
            answers@.len() >= stmts.len(),
            ops_view(run.script()) == batch(stmts),
            k <= stmts.len(),
            st is Execute ==> run.waiting() && !run.cleaning_up() && run.position() == k && k
                < stmts.len() && whole == batch_run(stmts, av, k as int),
            st matches Step::Finished(Ok(())) ==> whole.0 == k && whole.1 is Ok,
            st matches Step::Finished(Err(e)) ==> e matches BeadsError::Database(m) && whole.0 == k
                && (whole.1 matches Err(x) && x == m@),
        decreases stmts.len() - k,
    {
        match st {
            Step::Finished(result) => {
                return (k, result);
            },
            Step::Execute(_) => {
                let answer = match &answers[k] {
                    Ok(()) => Ok(()),
                    Err(m) => Err(m.clone()),
                };
                proof {
                    run.lemma_current_is_at_position();
                    let n = run.script().len();
                    assert(ops_view(run.script()).len() == n);
                    assert(batch(stmts).len() == stmts.len());
                    assert(ops_view(run.script())[k as int] == super::plan::op_view(
                        run.script()[k as int],
                    ));
                    assert(batch(stmts)[k as int] == OpView::Run(stmts[k as int], FailView::SkipStaleIndex));
                    assert(av[k as int] == answer_view(answers@[k as int]));
                    if k + 1 < n {
                        assert(ops_view(run.script())[k + 1] == super::plan::op_view(
                            run.script()[k + 1],
                        ));
                        assert(batch(stmts)[k + 1] == OpView::Run(stmts[k + 1], FailView::SkipStaleIndex));
                    }
                }
                assert(k < answers.len());
                let ghost before = run;
                let ghost outcome = answer;
                st = run.resume(answer);
                proof {
                    let op = before.current();
                    assert(op matches Op::Run { sql, on_failure: OnFailure::SkipStaleIndex } && sql@
                        == stmts[k as int]);
                    assert(cleanup_of(op).len() == 0);
                    assert(answer_view(outcome) == av[k as int]);
                    assert(continues(op, outcome) <==> match av[k as int] {
                        Ok(()) => true,
                        Err(m) => is_stale_index_failure(stmts[k as int], m),
                    });
                    let n = before.script().len();
                    assert(n == stmts.len());
                    if continues(op, outcome) {
                        assert(batch_run(stmts, av, k as int) == batch_run(stmts, av, k + 1));
                        if k + 1 < n {
                            assert(before.script()[k + 1] is Run);
                            assert(st is Execute);
                        } else {
                            assert(st matches Step::Finished(Ok(())));
                            assert(batch_run(stmts, av, k + 1).1 is Ok);
                        }
                    } else {
                        assert(st matches Step::Finished(Err(BeadsError::Database(_))));
                    }
                }
                k = k + 1;
            },
        }
    }
}

} // verus!
