//! The sequencer: which action comes next, and what the outcome of each
//! means for the rest of the upgrade.
//!
//! A [`Workflow`] is a state machine. The caller takes the pending action from
//! [`Workflow::next`], carries it out, and hands what it saw to
//! [`Workflow::advance`]; it does so until no action is pending, and then
//! reads [`Workflow::result`].

use crate::args::{mode_of, Arguments, RunMode};
use crate::command::{args_of, is_tolerant, subject_of, Action, ActionView, InvocationView};
use crate::cores::{cores_of, get_cores};
use crate::dkms::{driver_version, get_nvidia_version};
use crate::error::{ErrorView, UpdateError};
use crate::plan::{
    compile_plan, dkms_install, dkms_plan, dkms_status, finish, finish_plan, kernel_compile,
    status_query,
};
use crate::process::{
    check_exit, exit_of, lossy_text, output_of, parallelism_of, read_output, removal, removal_of,
    Outcome, OutcomeView, Removal,
};
use vstd::prelude::*;

verus! {

/// How many of the host's threads a build leaves unused.
pub const RESERVED_CORES: usize = 1;

/// A stage of an upgrade.
#[derive(Clone, Copy, Debug, PartialEq, Eq, Structural)]
pub enum Stage {
    /// Resolve the job count, then build and install the kernel.
    Compile,
    /// Read the driver's version from the module manager, then install the
    /// driver for the new kernel and clean up after the old one.
    Dkms,
    /// Generate the initramfs and refresh the bootloader.
    Finish,
}

/// The stages that `mode` runs, in order.
pub open spec fn stages_of(mode: RunMode) -> Seq<Stage> {
    match mode {
        RunMode::CompileOnly => seq![Stage::Compile, Stage::Finish],
        RunMode::DkmsOnly => seq![Stage::Dkms, Stage::Finish],
        RunMode::Full => seq![Stage::Compile, Stage::Dkms, Stage::Finish],
    }
}

/// The number of actions of `stage`.
pub open spec fn plan_len(stage: Stage) -> nat {
    match stage {
        Stage::Compile => 10,
        Stage::Dkms => 4,
        Stage::Finish => 2,
    }
}

/// The actions of `stage`. The first action of the compile stage resolves
/// `cores`, the first of the driver stage resolves `driver`: the actions that
/// follow them use what they resolved.
pub open spec fn stage_plan(
    stage: Stage,
    old: Seq<char>,
    new: Seq<char>,
    cores: Seq<char>,
    driver: Seq<char>,
) -> Seq<ActionView> {
    match stage {
        Stage::Compile => seq![ActionView::QueryParallelism] + compile_plan(new, cores),
        Stage::Dkms => seq![status_query()] + dkms_plan(old, new, driver),
        Stage::Finish => finish_plan(),
    }
}

/// The state of an upgrade, as contracts see it.
pub struct WorkflowView {
    /// The stages to run.
    pub mode: RunMode,
    /// Version of the kernel that is being replaced.
    pub old: Seq<char>,
    /// Version of the kernel that is being installed.
    pub new: Seq<char>,
    /// The job count for the build; empty until it is resolved.
    pub cores: Seq<char>,
    /// The driver's version; empty until it is resolved.
    pub driver: Seq<char>,
    /// How many stages are done.
    pub phase: nat,
    /// How many actions of the current stage are done.
    pub index: nat,
    /// The error that stopped the upgrade, if one did.
    pub failure: Option<ErrorView>,
}

impl WorkflowView {
    /// Every state that an upgrade can reach is well formed: it points at an
    /// action of a stage, or behind the last stage.
    pub open spec fn wf(self) -> bool {
        let stages = stages_of(self.mode);
        if self.phase < stages.len() {
            self.index < plan_len(stages[self.phase as int])
        } else {
            self.phase == stages.len() && self.index == 0
        }
    }

    /// The stage that the upgrade is in; none behind the last stage.
    pub open spec fn stage(self) -> Option<Stage> {
        let stages = stages_of(self.mode);
        if self.phase < stages.len() {
            Some(stages[self.phase as int])
        } else {
            None
        }
    }

    /// The actions of the current stage; none behind the last stage.
    pub open spec fn plan(self) -> Seq<ActionView> {
        let stages = stages_of(self.mode);
        if self.phase < stages.len() {
            stage_plan(stages[self.phase as int], self.old, self.new, self.cores, self.driver)
        } else {
            Seq::empty()
        }
    }

    /// Whether the upgrade has ended, well or badly.
    pub open spec fn finished(self) -> bool {
        self.failure is Some || self.phase >= stages_of(self.mode).len()
    }

    /// How the upgrade ended, once it has.
    pub open spec fn result(self) -> Option<Result<(), ErrorView>> {
        match self.failure {
            Some(e) => Some(Err(e)),
            None => if self.finished() {
                Some(Ok(()))
            } else {
                None
            },
        }
    }

    /// The action that the caller is to carry out next, unless the upgrade
    /// has ended.
    pub open spec fn pending(self) -> Option<ActionView> {
        if self.failure is None && self.index < self.plan().len() {
            Some(self.plan()[self.index as int])
        } else {
            None
        }
    }

    /// The state after the pending action is done: at the next action of the
    /// stage, or at the start of the next stage.
    pub open spec fn proceed(self) -> WorkflowView {
        if self.index + 1 < self.plan().len() {
            WorkflowView { index: self.index + 1, ..self }
        } else {
            WorkflowView { phase: self.phase + 1, index: 0, ..self }
        }
    }

    /// The state after `e` stopped the upgrade.
    pub open spec fn fail(self, e: ErrorView) -> WorkflowView {
        WorkflowView { failure: Some(e), ..self }
    }

    /// What `outcome` of `action` teaches, or the error that it means.
    ///
    /// The host query resolves the job count. The one command whose output is
    /// captured is the status query, which resolves the driver's version. A
    /// deletion must report success or find its target absent. Every other
    /// action must report success.
    pub open spec fn learn(self, action: ActionView, outcome: OutcomeView) -> Result<
        WorkflowView,
        ErrorView,
    > {
        match action {
            ActionView::QueryParallelism => match cores_of(
                RESERVED_CORES,
                parallelism_of(outcome),
            ) {
                Ok(cores) => Ok(WorkflowView { cores, ..self }),
                Err(e) => Err(e),
            },
            ActionView::Capture { command } => match output_of(
                command.program,
                command.args,
                outcome,
            ) {
                Ok(status) => match driver_version(status) {
                    Ok(driver) => Ok(WorkflowView { driver, ..self }),
                    Err(e) => Err(e),
                },
                Err(e) => Err(e),
            },
            _ => if is_tolerant(action) {
                match removal_of(subject_of(action), outcome) {
                    Ok(_) => Ok(self),
                    Err(e) => Err(e),
                }
            } else {
                match exit_of(subject_of(action), args_of(action), outcome) {
                    Ok(_) => Ok(self),
                    Err(e) => Err(e),
                }
            },
        }
    }

    /// The state after the caller reported `outcome` of the pending action.
    /// An upgrade that has ended stays as it is.
    pub open spec fn step(self, outcome: OutcomeView) -> WorkflowView {
        match self.pending() {
            None => self,
            Some(action) => match self.learn(action, outcome) {
                Ok(learned) => learned.proceed(),
                Err(e) => self.fail(e),
            },
        }
    }
}

/// The state in which an upgrade starts.
pub open spec fn start_of(mode: RunMode, old: Seq<char>, new: Seq<char>) -> WorkflowView {
    WorkflowView {
        mode,
        old,
        new,
        cores: Seq::empty(),
        driver: Seq::empty(),
        phase: 0,
        index: 0,
        failure: None,
    }
}

/// Every stage has as many actions as `plan_len` says, whatever was resolved.
pub proof fn lemma_plan_len(
    stage: Stage,
    old: Seq<char>,
    new: Seq<char>,
    cores: Seq<char>,
    driver: Seq<char>,
)
    ensures
        stage_plan(stage, old, new, cores, driver).len() == plan_len(stage),
{
}

/// An upgrade starts well formed.
pub proof fn lemma_start_is_wf(mode: RunMode, old: Seq<char>, new: Seq<char>)
    ensures
        start_of(mode, old, new).wf(),
{
}

/// Every report keeps an upgrade well formed.
pub proof fn lemma_step_keeps_wf(w: WorkflowView, outcome: OutcomeView)
    requires
        w.wf(),
    ensures
        w.step(outcome).wf(),
{
}

/// An action is pending exactly as long as the upgrade has not ended.
pub proof fn lemma_pending_until_finished(w: WorkflowView)
    requires
        w.wf(),
    ensures
        w.pending() is None <==> w.finished(),
{
    if w.phase < stages_of(w.mode).len() {
        lemma_plan_len(stages_of(w.mode)[w.phase as int], w.old, w.new, w.cores, w.driver);
    }
}

/// The upgrade fails fast: once an error has stopped it, no action is
/// pending, and no later report changes anything.
pub proof fn lemma_failure_is_final(w: WorkflowView, outcome: OutcomeView)
    requires
        w.failure is Some,
    ensures
        w.pending() is None,
        w.step(outcome) == w,
        w.result() == Some(Err::<(), ErrorView>(w.failure->0)),
{
}

/// A command that ran and reported failure stops the upgrade with
/// `CommandFailed`, which names the command's program and holds the text of
/// what was captured of its error stream. Nothing is pending after it.
pub proof fn lemma_failed_command_stops(
    w: WorkflowView,
    command: InvocationView,
    status: Option<i32>,
    stderr: Seq<u8>,
)
    requires
        w.pending() == Some(ActionView::Run { command }),
    ensures
        w.step(OutcomeView::Failed { status, stderr }).failure == Some(
            ErrorView::CommandFailed {
                program: command.program,
                status,
                stderr: lossy_text(stderr),
            },
        ),
        w.step(OutcomeView::Failed { status, stderr }).pending() is None,
{
}

/// A command that could not be started stops the upgrade with `LaunchError`,
/// which names the command's program and its arguments.
pub proof fn lemma_unstarted_command_stops(w: WorkflowView, command: InvocationView)
    requires
        w.pending() == Some(ActionView::Run { command }) || w.pending() == Some(
            ActionView::Capture { command },
        ),
    ensures
        w.step(OutcomeView::NotStarted).failure == Some(
            ErrorView::LaunchError { program: command.program, args: command.args },
        ),
        w.step(OutcomeView::NotStarted).pending() is None,
{
}

/// A deletion whose target is not there is no error: it is reported as not
/// found, and the upgrade moves on as if the deletion had succeeded. So it is
/// the first time and every time after.
pub proof fn lemma_absent_target_is_no_error(w: WorkflowView)
    requires
        w.pending() matches Some(action) && is_tolerant(action),
    ensures
        removal_of(subject_of(w.pending()->0), OutcomeView::Absent) == Ok::<Removal, ErrorView>(
            Removal::NotFound,
        ),
        w.step(OutcomeView::Absent) == w.proceed(),
        w.step(OutcomeView::Absent) == w.step(OutcomeView::Succeeded),
        w.step(OutcomeView::Absent).failure is None,
{
}

/// A deletion stops the upgrade where it fails for any reason other than
/// the absence of its target: with `CommandFailed` where it was tried and
/// failed, with `LaunchError` otherwise; either names the path.
pub proof fn lemma_failed_deletion_stops(w: WorkflowView, outcome: OutcomeView)
    requires
        w.pending() matches Some(action) && is_tolerant(action),
        !(outcome is Succeeded || outcome is Captured || outcome is Absent),
    ensures
        w.step(outcome).failure is Some,
        w.step(outcome).pending() is None,
        outcome matches OutcomeView::Failed { status, stderr } ==> w.step(outcome).failure == Some(
            ErrorView::CommandFailed {
                program: subject_of(w.pending()->0),
                status,
                stderr: lossy_text(stderr),
            },
        ),
        !(outcome is Failed) ==> w.step(outcome).failure == Some(
            ErrorView::LaunchError { program: subject_of(w.pending()->0), args: Seq::empty() },
        ),
{
}

/// Every mode ends with the finishing stage, and runs it once.
pub proof fn lemma_every_mode_finishes(mode: RunMode)
    ensures
        stages_of(mode).last() == Stage::Finish,
        forall|i: int|
            0 <= i < stages_of(mode).len() - 1 ==> #[trigger] stages_of(mode)[i] != Stage::Finish,
{
}

/// The driver stage alone: its stages are the driver stage and the finishing
/// stage, and no action of the compile stage is ever pending.
pub proof fn lemma_dkms_only_skips_compile(w: WorkflowView)
    requires
        w.mode == RunMode::DkmsOnly,
        w.wf(),
    ensures
        stages_of(w.mode) == seq![Stage::Dkms, Stage::Finish],
        w.pending() matches Some(action) ==> (seq![status_query()] + dkms_plan(
            w.old,
            w.new,
            w.driver,
        ) + finish_plan()).contains(action),
{
    let all = seq![status_query()] + dkms_plan(w.old, w.new, w.driver) + finish_plan();
    if w.pending() is Some {
        if w.phase == 0 {
            assert(all[w.index as int] == w.plan()[w.index as int]);
        } else {
            assert(all[4 + w.index as int] == w.plan()[w.index as int]);
        }
    }
}

/// The compile stage alone: its stages are the compile stage and the
/// finishing stage.
pub proof fn lemma_compile_only_skips_dkms(w: WorkflowView)
    requires
        w.mode == RunMode::CompileOnly,
        w.wf(),
    ensures
        stages_of(w.mode) == seq![Stage::Compile, Stage::Finish],
        w.pending() matches Some(action) ==> (seq![ActionView::QueryParallelism] + compile_plan(
            w.new,
            w.cores,
        ) + finish_plan()).contains(action),
{
    let all = seq![ActionView::QueryParallelism] + compile_plan(w.new, w.cores) + finish_plan();
    if w.pending() is Some {
        if w.phase == 0 {
            assert(all[w.index as int] == w.plan()[w.index as int]);
        } else {
            assert(all[10 + w.index as int] == w.plan()[w.index as int]);
        }
    }
}

/// An upgrade in progress.
pub struct Workflow {
    mode: RunMode,
    old: String,
    new: String,
    cores: String,
    driver: String,
    phase: usize,
    index: usize,
    failure: Option<UpdateError>,
}

impl View for Workflow {
    type V = WorkflowView;

    closed spec fn view(&self) -> WorkflowView {
        WorkflowView {
            mode: self.mode,
            old: self.old@,
            new: self.new@,
            cores: self.cores@,
            driver: self.driver@,
            phase: self.phase as nat,
            index: self.index as nat,
            failure: match self.failure {
                Some(e) => Some(e@),
                None => None,
            },
        }
    }
}

/// The stage of `mode` at position `phase`, if there is one.
fn stage_at(mode: RunMode, phase: usize) -> (stage: Option<Stage>)
    ensures
        stage == if phase < stages_of(mode).len() {
            Some(stages_of(mode)[phase as int])
        } else {
            None
        },
{
    match mode {
        RunMode::CompileOnly => if phase == 0 {
            Some(Stage::Compile)
        } else if phase == 1 {
            Some(Stage::Finish)
        } else {
            None
        },
        RunMode::DkmsOnly => if phase == 0 {
            Some(Stage::Dkms)
        } else if phase == 1 {
            Some(Stage::Finish)
        } else {
            None
        },
        RunMode::Full => if phase == 0 {
            Some(Stage::Compile)
        } else if phase == 1 {
            Some(Stage::Dkms)
        } else if phase == 2 {
            Some(Stage::Finish)
        } else {
            None
        },
    }
}

/// The number of actions of `stage`.
fn stage_len(stage: Stage) -> (len: usize)
    ensures
        len == plan_len(stage),
{
    match stage {
        Stage::Compile => 10,
        Stage::Dkms => 4,
        Stage::Finish => 2,
    }
}

impl Workflow {
    #[verifier::type_invariant]
    spec fn inv(&self) -> bool {
        self@.wf()
    }

    /// Starts the upgrade that `args` ask for.
    pub fn new(args: Arguments) -> (w: Workflow)
        ensures
            w@ == start_of(mode_of(args.command), args.old@, args.new@),
            w@.wf(),
    {
        let mode = args.run_mode();
        Workflow {
            mode,
            old: args.old,
            new: args.new,
            cores: String::new(),
            driver: String::new(),
            phase: 0,
            index: 0,
            failure: None,
        }
    }

    /// The action that the caller is to carry out next; `None` once the
    /// upgrade has ended.
    pub fn next(&self) -> (action: Option<Action>)
        ensures
            self@.wf(),
            action is None <==> self@.finished(),
            action matches Some(a) ==> self@.pending() == Some(a@),
            action is None ==> self@.pending() is None,
    {
        proof {
            use_type_invariant(self);
        }
        if self.failure.is_some() {
            return None;
        }
        match stage_at(self.mode, self.phase) {
            None => None,
            Some(Stage::Compile) => {
                if self.index == 0 {
                    Some(Action::QueryParallelism)
                } else {
                    let mut plan = kernel_compile(self.new.as_str(), self.cores.as_str());
                    Some(plan.remove(self.index - 1))
                }
            },
            Some(Stage::Dkms) => {
                if self.index == 0 {
                    Some(dkms_status())
                } else {
                    let mut plan = dkms_install(
                        self.old.as_str(),
                        self.new.as_str(),
                        self.driver.as_str(),
                    );
                    Some(plan.remove(self.index - 1))
                }
            },
            Some(Stage::Finish) => {
                let mut plan = finish();
                Some(plan.remove(self.index))
            },
        }
    }

    /// The stage that the upgrade is in; `None` behind the last stage.
    pub fn stage(&self) -> (stage: Option<Stage>)
        ensures
            stage == self@.stage(),
    {
        stage_at(self.mode, self.phase)
    }

    /// The job count that the compile stage resolved; empty before that.
    pub fn cores(&self) -> (cores: &str)
        ensures
            cores@ == self@.cores,
    {
        self.cores.as_str()
    }

    /// The driver's version that the driver stage resolved; empty before that.
    pub fn driver(&self) -> (driver: &str)
        ensures
            driver@ == self@.driver,
    {
        self.driver.as_str()
    }

    /// Whether the upgrade has ended, well or badly.
    pub fn is_finished(&self) -> (r: bool)
        ensures
            r == self@.finished(),
    {
        self.failure.is_some() || stage_at(self.mode, self.phase).is_none()
    }

    /// How the upgrade ended; `None` while it has not.
    pub fn result(&self) -> (r: Option<Result<(), UpdateError>>)
        ensures
            r is None <==> self@.result() is None,
            r matches Some(Ok(_)) ==> self@.result() == Some(Ok::<(), ErrorView>(())),
            r matches Some(Err(e)) ==> self@.result() == Some(Err::<(), ErrorView>(e@)),
    {
        match &self.failure {
            Some(e) => Some(Err(e.clone())),
            None => if stage_at(self.mode, self.phase).is_none() {
                Some(Ok(()))
            } else {
                None
            },
        }
    }

    /// The state after the pending action is done.
    fn proceed(self) -> (next: Workflow)
        requires
            self@.pending() is Some,
        ensures
            next@ == self@.proceed(),
    {
        proof {
            use_type_invariant(&self);
        }
        let Workflow { mode, old, new, cores, driver, phase, index, failure } = self;
        let len = match stage_at(mode, phase) {
            Some(stage) => stage_len(stage),
            None => 0,
        };
        if index + 1 < len {
            Workflow { mode, old, new, cores, driver, phase, index: index + 1, failure }
        } else {
            Workflow { mode, old, new, cores, driver, phase: phase + 1, index: 0, failure }
        }
    }

    /// The state after `e` stopped the upgrade.
    fn fail(self, e: UpdateError) -> (next: Workflow)
        ensures
            next@ == self@.fail(e@),
    {
        proof {
            use_type_invariant(&self);
        }
        let Workflow { mode, old, new, cores, driver, phase, index, failure: _ } = self;
        Workflow { mode, old, new, cores, driver, phase, index, failure: Some(e) }
    }

    /// Takes the caller's report of what became of the pending action, and
    /// moves on: to the next action, or to the end where the outcome is an
    /// error. An upgrade that has ended stays as it is.
    pub fn advance(self, outcome: &Outcome) -> (next: Workflow)
        ensures
            next@ == self@.step(outcome@),
            next@.wf(),
    {
        proof {
            use_type_invariant(&self);
        }
        let action = match self.next() {
            Some(action) => action,
            None => {
                return self;
            },
        };
        let next = match action {
            Action::QueryParallelism => {
                let available = match outcome {
                    Outcome::Parallelism { count } => Some(*count),
                    _ => None,
                };
                match get_cores(RESERVED_CORES, available) {
                    Ok(text) => {
                        let Workflow { mode, old, new, cores: _, driver, phase, index, failure } =
                            self;
                        let learned = Workflow {
                            mode,
                            old,
                            new,
                            cores: text,
                            driver,
                            phase,
                            index,
                            failure,
                        };
                        learned.proceed()
                    },
                    Err(e) => self.fail(e),
                }
            },
            Action::Capture { command } => {
                match read_output(command.program.as_str(), &command.args, outcome) {
                    Ok(status) => match get_nvidia_version(status.as_str()) {
                        Ok(version) => {
                            let Workflow {
                                mode,
                                old,
                                new,
                                cores,
                                driver: _,
                                phase,
                                index,
                                failure,
                            } = self;
                            let learned = Workflow {
                                mode,
                                old,
                                new,
                                cores,
                                driver: version,
                                phase,
                                index,
                                failure,
                            };
                            learned.proceed()
                        },
                        Err(e) => self.fail(e),
                    },
                    Err(e) => self.fail(e),
                }
            },
            other => {
                let subject = other.subject();
                if other.tolerant() {
                    match removal(subject.as_str(), outcome) {
                        Ok(_) => self.proceed(),
                        Err(e) => self.fail(e),
                    }
                } else {
                    match check_exit(subject.as_str(), &other.arguments(), outcome) {
                        Ok(_) => self.proceed(),
                        Err(e) => self.fail(e),
                    }
                }
            },
        };
        proof {
            use_type_invariant(&next);
        }
        next
    }
}

} // verus!
