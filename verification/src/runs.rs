//! Whole runs of an upgrade: what the caller is handed from the start to the
//! end, for the reports that it makes on the way.

use crate::args::RunMode;
use crate::command::{is_tolerant, ActionView};
use crate::cores::{decimal, job_count_of};
use crate::dkms::driver_version;
use crate::error::ErrorView;
use crate::plan::{compile_plan, dkms_plan, finish_plan, run_of, status_query};
use crate::process::{lossy_text, succeeded, OutcomeView};
use crate::workflow::{
    lemma_every_mode_finishes, lemma_plan_len, lemma_start_is_wf, lemma_step_keeps_wf, stages_of,
    start_of, Stage, WorkflowView, RESERVED_CORES,
};
use vstd::prelude::*;
use vstd::utf8::{decode_utf8, valid_utf8};

verus! {

impl WorkflowView {
    /// The state after the caller reported `outcomes`, one after the other.
    pub open spec fn run(self, outcomes: Seq<OutcomeView>) -> WorkflowView
        decreases outcomes.len(),
    {
        if outcomes.len() == 0 {
            self
        } else {
            self.step(outcomes[0]).run(outcomes.skip(1))
        }
    }

    /// The actions that the caller carries out while it reports `outcomes`:
    /// the action that is pending before each report, as long as one is.
    pub open spec fn trace(self, outcomes: Seq<OutcomeView>) -> Seq<ActionView>
        decreases outcomes.len(),
    {
        if outcomes.len() == 0 {
            Seq::empty()
        } else {
            match self.pending() {
                None => Seq::empty(),
                Some(action) => seq![action] + self.step(outcomes[0]).trace(outcomes.skip(1)),
            }
        }
    }
}

/// Whether `outcome` lets the upgrade move on past `action` without
/// teaching it anything: so it is where the action reports success, and for
/// a deletion also where its target is not there.
pub open spec fn passes(action: ActionView, outcome: OutcomeView) -> bool {
    match action {
        ActionView::QueryParallelism => false,
        ActionView::Capture { .. } => false,
        _ => succeeded(outcome) || (is_tolerant(action) && outcome is Absent),
    }
}

/// The job count that the compile stage resolves on a host that runs `count`
/// threads at once.
pub open spec fn resolved_cores(count: usize) -> Seq<char> {
    decimal(job_count_of(count as int, RESERVED_CORES as int) as nat)
}

/// Every state that an upgrade reaches is well formed.
pub proof fn lemma_run_keeps_wf(
    mode: RunMode,
    old: Seq<char>,
    new: Seq<char>,
    outcomes: Seq<OutcomeView>,
)
    ensures
        start_of(mode, old, new).run(outcomes).wf(),
{
    lemma_start_is_wf(mode, old, new);
    lemma_run_from_wf(start_of(mode, old, new), outcomes);
}

/// Reports keep a well-formed upgrade well formed.
pub proof fn lemma_run_from_wf(w: WorkflowView, outcomes: Seq<OutcomeView>)
    requires
        w.wf(),
    ensures
        w.run(outcomes).wf(),
    decreases outcomes.len(),
{
    if outcomes.len() > 0 {
        lemma_step_keeps_wf(w, outcomes[0]);
        lemma_run_from_wf(w.step(outcomes[0]), outcomes.skip(1));
    }
}

/// Reports to an upgrade that has ended change nothing and bring no action.
pub proof fn lemma_run_after_the_end(w: WorkflowView, outcomes: Seq<OutcomeView>)
    requires
        w.pending() is None,
    ensures
        w.run(outcomes) == w,
        w.trace(outcomes) == Seq::<ActionView>::empty(),
    decreases outcomes.len(),
{
    if outcomes.len() > 0 {
        lemma_run_after_the_end(w, outcomes.skip(1));
    }
}

/// One report is one step, and brings the action that was pending before it.
pub proof fn lemma_run_once(w: WorkflowView, outcome: OutcomeView)
    ensures
        w.run(seq![outcome]) == w.step(outcome),
        w.trace(seq![outcome]) == match w.pending() {
            Some(action) => seq![action],
            None => Seq::empty(),
        },
{
    let one = seq![outcome];
    let next = w.step(outcome);
    assert(next.run(one.skip(1)) == next);
    assert(next.trace(one.skip(1)) == Seq::<ActionView>::empty());
}

/// Reporting `first` and then `then` is reporting them in one go.
pub proof fn lemma_run_in_parts(w: WorkflowView, first: Seq<OutcomeView>, then: Seq<OutcomeView>)
    ensures
        w.run(first + then) == w.run(first).run(then),
        w.trace(first + then) == w.trace(first) + w.run(first).trace(then),
    decreases first.len(),
{
    if first.len() > 0 {
        let all = first + then;
        assert(all.skip(1) =~= first.skip(1) + then);
        if w.pending() is None {
            lemma_run_after_the_end(w, first);
            lemma_run_after_the_end(w, then);
            lemma_run_after_the_end(w, all);
        } else {
            lemma_run_in_parts(w.step(first[0]), first.skip(1), then);
        }
    }
}

/// Within a stage, behind what the stage resolves first: as long as every
/// outcome lets the upgrade pass, the caller is handed the actions of the
/// stage one by one, and the upgrade moves along them, and on to the next
/// stage behind the last.
pub proof fn lemma_run_within_stage(w: WorkflowView, outcomes: Seq<OutcomeView>)
    requires
        w.wf(),
        w.failure is None,
        w.phase < stages_of(w.mode).len(),
        w.index + outcomes.len() <= w.plan().len(),
        forall|j: int|
            0 <= j < outcomes.len() ==> passes(w.plan()[w.index + j], #[trigger] outcomes[j]),
    ensures
        w.run(outcomes) == if w.index + outcomes.len() < w.plan().len() {
            WorkflowView { index: w.index + outcomes.len(), ..w }
        } else {
            WorkflowView { phase: w.phase + 1, index: 0, ..w }
        },
        w.trace(outcomes) == w.plan().subrange(
            w.index as int,
            (w.index + outcomes.len()) as int,
        ),
    decreases outcomes.len(),
{
    lemma_plan_len(stages_of(w.mode)[w.phase as int], w.old, w.new, w.cores, w.driver);
    if outcomes.len() > 0 {
        let next = w.step(outcomes[0]);
        let rest = outcomes.skip(1);
        if w.index + 1 < w.plan().len() {
            lemma_run_within_stage(next, rest);
        } else {
            assert(next.trace(rest) == Seq::<ActionView>::empty());
        }
    }
}

/// The compile stage from its start, on a host that runs `count` threads at
/// once and on which every action of the build succeeds: the caller is handed
/// the host query and then the whole build with the job count that `count`
/// gives, and the upgrade stands at the next stage.
pub proof fn lemma_compile_stage(w: WorkflowView, count: usize, build: Seq<OutcomeView>)
    requires
        w.wf(),
        w.failure is None,
        w.index == 0,
        w.phase < stages_of(w.mode).len(),
        stages_of(w.mode)[w.phase as int] == Stage::Compile,
        count >= 1,
        build.len() == 9,
        forall|j: int| 0 <= j < 9 ==> succeeded(#[trigger] build[j]),
    ensures
        w.run(seq![OutcomeView::Parallelism { count }] + build) == (WorkflowView {
            cores: resolved_cores(count),
            phase: w.phase + 1,
            index: 0,
            ..w
        }),
        w.trace(seq![OutcomeView::Parallelism { count }] + build) == seq![
            ActionView::QueryParallelism,
        ] + compile_plan(w.new, resolved_cores(count)),
{
    let query = seq![OutcomeView::Parallelism { count }];
    let asked = WorkflowView { cores: resolved_cores(count), index: 1, ..w };
    lemma_run_once(w, query[0]);
    lemma_run_in_parts(w, query, build);
    lemma_run_within_stage(asked, build);
}

/// The driver stage from its start, where the status report `status` gives
/// the driver's version `driver`, the installation succeeds, and each of the
/// two deletions succeeds or finds its target absent: the caller is handed
/// the status query, the installation of that version and the two deletions,
/// and the upgrade stands at the next stage.
pub proof fn lemma_dkms_stage(
    w: WorkflowView,
    status: Seq<u8>,
    driver: Seq<char>,
    install: OutcomeView,
    cleanup: Seq<OutcomeView>,
)
    requires
        w.wf(),
        w.failure is None,
        w.index == 0,
        w.phase < stages_of(w.mode).len(),
        stages_of(w.mode)[w.phase as int] == Stage::Dkms,
        valid_utf8(status),
        driver_version(decode_utf8(status)) == Ok::<Seq<char>, ErrorView>(driver),
        succeeded(install),
        cleanup.len() == 2,
        forall|j: int| 0 <= j < 2 ==> (succeeded(#[trigger] cleanup[j]) || cleanup[j] is Absent),
    ensures
        w.run(seq![OutcomeView::Captured { stdout: status }, install] + cleanup) == (WorkflowView {
            driver,
            phase: w.phase + 1,
            index: 0,
            ..w
        }),
        w.trace(seq![OutcomeView::Captured { stdout: status }, install] + cleanup) == seq![
            status_query(),
        ] + dkms_plan(w.old, w.new, driver),
{
    let query = seq![OutcomeView::Captured { stdout: status }];
    let rest = seq![install] + cleanup;
    let asked = WorkflowView { driver, index: 1, ..w };
    lemma_run_once(w, query[0]);
    assert(query + rest =~= seq![OutcomeView::Captured { stdout: status }, install] + cleanup);
    lemma_run_in_parts(w, query, rest);
    lemma_run_within_stage(asked, rest);
}

/// The finishing stage from its start, where both of its actions succeed:
/// the caller is handed the two, and the upgrade has ended well.
pub proof fn lemma_finish_stage(w: WorkflowView, finish: Seq<OutcomeView>)
    requires
        w.wf(),
        w.failure is None,
        w.index == 0,
        w.phase == stages_of(w.mode).len() - 1,
        finish.len() == 2,
        forall|j: int| 0 <= j < 2 ==> succeeded(#[trigger] finish[j]),
    ensures
        w.run(finish).result() == Some(Ok::<(), ErrorView>(())),
        w.run(finish).pending() is None,
        w.trace(finish) == finish_plan(),
{
    lemma_every_mode_finishes(w.mode);
    lemma_run_within_stage(w, finish);
}

/// The full upgrade on a machine on which everything works, where a
/// deletion may also find its target absent: the caller is handed, in this
/// order and each once, the host query, the build with the job count that the
/// host's answer gives, the status query, the installation of the driver in
/// the version that the status report gives, the two deletions, and the two
/// finishing actions; and the upgrade ends well.
pub proof fn lemma_full_upgrade(
    old: Seq<char>,
    new: Seq<char>,
    count: usize,
    build: Seq<OutcomeView>,
    status: Seq<u8>,
    driver: Seq<char>,
    install: OutcomeView,
    cleanup: Seq<OutcomeView>,
    finish: Seq<OutcomeView>,
)
    requires
        count >= 1,
        build.len() == 9,
        forall|j: int| 0 <= j < 9 ==> succeeded(#[trigger] build[j]),
        valid_utf8(status),
        driver_version(decode_utf8(status)) == Ok::<Seq<char>, ErrorView>(driver),
        succeeded(install),
        cleanup.len() == 2,
        forall|j: int| 0 <= j < 2 ==> (succeeded(#[trigger] cleanup[j]) || cleanup[j] is Absent),
        finish.len() == 2,
        forall|j: int| 0 <= j < 2 ==> succeeded(#[trigger] finish[j]),
    ensures
        ({
            let start = start_of(RunMode::Full, old, new);
            let outcomes = seq![OutcomeView::Parallelism { count }] + build + seq![
                OutcomeView::Captured { stdout: status },
                install,
            ] + cleanup + finish;
            &&& start.trace(outcomes) == seq![ActionView::QueryParallelism] + compile_plan(
                new,
                resolved_cores(count),
            ) + seq![status_query()] + dkms_plan(old, new, driver) + finish_plan()
            &&& start.run(outcomes).result() == Some(Ok::<(), ErrorView>(()))
            &&& start.run(outcomes).pending() is None
        }),
{
    let start = start_of(RunMode::Full, old, new);
    let first = seq![OutcomeView::Parallelism { count }] + build;
    let second = seq![OutcomeView::Captured { stdout: status }, install] + cleanup;
    lemma_compile_stage(start, count, build);
    let built = start.run(first);
    lemma_dkms_stage(built, status, driver, install, cleanup);
    let installed = built.run(second);
    lemma_finish_stage(installed, finish);
    lemma_run_in_parts(start, first, second);
    lemma_run_in_parts(start, first + second, finish);
    assert(first + second + finish =~= seq![OutcomeView::Parallelism { count }] + build + seq![
        OutcomeView::Captured { stdout: status },
        install,
    ] + cleanup + finish);
}

/// The driver stage alone on a machine on which everything works, where a
/// deletion may also find its target absent: the caller is handed the status
/// query, the installation of the driver, the two deletions and the two
/// finishing actions, and nothing of the build; and the upgrade ends well.
pub proof fn lemma_dkms_only_upgrade(
    old: Seq<char>,
    new: Seq<char>,
    status: Seq<u8>,
    driver: Seq<char>,
    install: OutcomeView,
    cleanup: Seq<OutcomeView>,
    finish: Seq<OutcomeView>,
)
    requires
        valid_utf8(status),
        driver_version(decode_utf8(status)) == Ok::<Seq<char>, ErrorView>(driver),
        succeeded(install),
        cleanup.len() == 2,
        forall|j: int| 0 <= j < 2 ==> (succeeded(#[trigger] cleanup[j]) || cleanup[j] is Absent),
        finish.len() == 2,
        forall|j: int| 0 <= j < 2 ==> succeeded(#[trigger] finish[j]),
    ensures
        ({
            let start = start_of(RunMode::DkmsOnly, old, new);
            let outcomes = seq![OutcomeView::Captured { stdout: status }, install] + cleanup
                + finish;
            &&& start.trace(outcomes) == seq![status_query()] + dkms_plan(old, new, driver)
                + finish_plan()
            &&& start.run(outcomes).result() == Some(Ok::<(), ErrorView>(()))
            &&& start.run(outcomes).pending() is None
        }),
{
    let start = start_of(RunMode::DkmsOnly, old, new);
    let first = seq![OutcomeView::Captured { stdout: status }, install] + cleanup;
    lemma_dkms_stage(start, status, driver, install, cleanup);
    lemma_finish_stage(start.run(first), finish);
    lemma_run_in_parts(start, first, finish);
}

/// The compile stage alone on a machine on which everything works: the
/// caller is handed the host query, the build and the two finishing actions,
/// and nothing of the driver; and the upgrade ends well.
pub proof fn lemma_compile_only_upgrade(
    old: Seq<char>,
    new: Seq<char>,
    count: usize,
    build: Seq<OutcomeView>,
    finish: Seq<OutcomeView>,
)
    requires
        count >= 1,
        build.len() == 9,
        forall|j: int| 0 <= j < 9 ==> succeeded(#[trigger] build[j]),
        finish.len() == 2,
        forall|j: int| 0 <= j < 2 ==> succeeded(#[trigger] finish[j]),
    ensures
        ({
            let start = start_of(RunMode::CompileOnly, old, new);
            let outcomes = seq![OutcomeView::Parallelism { count }] + build + finish;
            &&& start.trace(outcomes) == seq![ActionView::QueryParallelism] + compile_plan(
                new,
                resolved_cores(count),
            ) + finish_plan()
            &&& start.run(outcomes).result() == Some(Ok::<(), ErrorView>(()))
            &&& start.run(outcomes).pending() is None
        }),
{
    let start = start_of(RunMode::CompileOnly, old, new);
    let first = seq![OutcomeView::Parallelism { count }] + build;
    lemma_compile_stage(start, count, build);
    lemma_finish_stage(start.run(first), finish);
    lemma_run_in_parts(start, first, finish);
}

/// A build that fails: where the download, the extraction, the two
/// directory actions and the configuration succeeded and the build tool then
/// reports failure, the caller is handed nothing after the build, whatever it
/// goes on to report, and the upgrade ends with `CommandFailed`, which names
/// the build tool.
pub proof fn lemma_failed_build(
    mode: RunMode,
    old: Seq<char>,
    new: Seq<char>,
    count: usize,
    before: Seq<OutcomeView>,
    status: Option<i32>,
    stderr: Seq<u8>,
    after: Seq<OutcomeView>,
)
    requires
        mode != RunMode::DkmsOnly,
        count >= 1,
        before.len() == 5,
        forall|j: int| 0 <= j < 5 ==> succeeded(#[trigger] before[j]),
    ensures
        ({
            let start = start_of(mode, old, new);
            let outcomes = seq![OutcomeView::Parallelism { count }] + before + seq![
                OutcomeView::Failed { status, stderr },
            ] + after;
            let plan = seq![ActionView::QueryParallelism] + compile_plan(
                new,
                resolved_cores(count),
            );
            &&& start.trace(outcomes) == plan.take(7)
            &&& plan[6] == run_of("make"@, seq!["-j"@, resolved_cores(count)])
            &&& start.run(outcomes).result() == Some(
                Err::<(), ErrorView>(
                    ErrorView::CommandFailed {
                        program: "make"@,
                        status,
                        stderr: lossy_text(stderr),
                    },
                ),
            )
        }),
{
    let start = start_of(mode, old, new);
    let query = seq![OutcomeView::Parallelism { count }];
    let failed = seq![OutcomeView::Failed { status, stderr }];
    let plan = seq![ActionView::QueryParallelism] + compile_plan(new, resolved_cores(count));
    let asked = WorkflowView { cores: resolved_cores(count), index: 1, ..start };
    lemma_run_once(start, query[0]);
    lemma_run_within_stage(asked, before);
    let building = asked.run(before);
    let stopped = building.step(failed[0]);
    lemma_run_once(building, failed[0]);
    lemma_run_after_the_end(stopped, after);
    lemma_run_in_parts(start, query, before);
    lemma_run_in_parts(start, query + before, failed);
    lemma_run_in_parts(start, query + before + failed, after);
}

} // verus!
