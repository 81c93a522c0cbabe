//! One package in one phase.
//!
//! A [`Worker`] takes one package through one phase on one operating
//! system. Like an instruction it is executed in steps: it hands out one
//! effect at a time (its own log lines, and the effects of the
//! instructions it runs) and is resumed with the outcome. Workers share
//! nothing; what one of them does never depends on another.
//!
//! In every phase the worker looks up the package's instructions for the
//! operating system and runs the phase's list in order, stopping at the
//! first instruction that fails. In the install phase it first runs the
//! prerequisite checks: as soon as one of them succeeds, the package counts
//! as installed and its install instructions are left alone.

use crate::config::machine::OS;
use crate::logger::LogLevel;
use crate::manager::effects::{
    error_text, Effect, EffectView, ExecutionError, Host, HostView, Outcome, OutcomeView, Stage,
    Step, StepView,
};
use crate::manager::instructions::{AnyInstruction, Instructions};
use crate::manager::semantics::{first_step, lemma_finished_succeeds, next_step, InstructionsView};
use crate::manager::{instruction_views, InstructionMapping, InstructionMappingView, Package, PackageView};
use vstd::prelude::*;
use vstd::string::*;

verus! {

/// The phases of a bundle's execution.
#[derive(Debug, Clone, Copy, PartialEq, Eq, Structural, Hash)]
pub enum Phase {
    /// Install the software
    Install,
    /// Configure it once everything is installed
    Configure,
    /// Revert the configuration
    Deconfigure,
    /// Remove the software
    Uninstall,
}

/// How a worker ended.
#[derive(Debug, Clone, Copy, PartialEq, Eq, Hash)]
pub enum WorkerExit {
    /// Every instruction of the phase succeeded.
    Completed,
    /// A prerequisite check succeeded: the package is installed already,
    /// and none of its install instructions ran.
    AlreadyInstalled,
    /// The worker stopped at `error`.
    Failed { error: ExecutionError },
}

/// Where a worker stands while the host performs an effect for it.
#[derive(Debug, Clone, Copy, PartialEq, Eq, Hash)]
pub enum WorkerStage {
    /// The line that opens the phase is being logged.
    Announced,
    /// The line that opens the prerequisite checks is being logged.
    ChecksAnnounced,
    /// Prerequisite check number `index` stands at `stage`.
    Checking { index: usize, stage: Stage },
    /// The failure of prerequisite check number `index` is being logged.
    CheckFailed { index: usize },
    /// The success of a prerequisite check is being logged.
    Skipped,
    /// Instruction number `index` of the phase stands at `stage`.
    Running { index: usize, stage: Stage },
    /// The success of instruction number `index` is being logged.
    RanNoted { index: usize },
    /// The failure `error` of an instruction is being logged.
    FailureNoted { error: ExecutionError },
    /// The lack of instructions for the operating system is being logged.
    MissingNoted,
}

/// What a worker asks for next.
#[derive(Debug, PartialEq, Eq)]
pub enum WorkerStep {
    /// Perform `effect`, then resume the worker at `then` with the outcome.
    Perform { effect: Effect, then: WorkerStage },
    /// The worker has ended.
    Finish { exit: WorkerExit },
}

/// The mathematical content of a [`WorkerStep`].
pub enum WorkerStepView {
    Perform { effect: EffectView, then: WorkerStage },
    Finish { exit: WorkerExit },
}

impl View for WorkerStep {
    type V = WorkerStepView;

    open spec fn view(&self) -> WorkerStepView {
        match self {
            WorkerStep::Perform { effect, then } => WorkerStepView::Perform {
                effect: effect@,
                then: *then,
            },
            WorkerStep::Finish { exit } => WorkerStepView::Finish { exit: *exit },
        }
    }
}

/// One package in one phase on one operating system.
#[derive(Debug, Clone, PartialEq, Eq)]
pub struct Worker {
    package: Package,
    os: OS,
    phase: Phase,
    dry_run: bool,
}

/// The mathematical content of a [`Worker`].
pub struct WorkerView {
    pub package: PackageView,
    pub os: OS,
    pub phase: Phase,
    pub dry_run: bool,
}

impl View for Worker {
    type V = WorkerView;

    closed spec fn view(&self) -> WorkerView {
        WorkerView {
            package: self.package@,
            os: self.os,
            phase: self.phase,
            dry_run: self.dry_run,
        }
    }
}

/// The instructions of `mapping` for `phase`.
pub open spec fn phase_list(mapping: InstructionMappingView, phase: Phase) -> Seq<
    InstructionsView,
> {
    match phase {
        Phase::Install => mapping.install,
        Phase::Configure => mapping.configure,
        Phase::Deconfigure => mapping.deconfigure,
        Phase::Uninstall => mapping.uninstall,
    }
}

/// The line that opens `phase` for the package `name`.
pub open spec fn opening_line(phase: Phase, name: Seq<char>) -> Seq<char> {
    match phase {
        Phase::Install => "==> Installing program: "@ + name,
        Phase::Configure => "==> Configuring program: "@ + name,
        Phase::Deconfigure => "==> Deconfiguring program: "@ + name,
        Phase::Uninstall => "==> Uninstalling program: "@ + name,
    }
}

/// The line that reports the success of an instruction of `phase`.
pub open spec fn success_line(phase: Phase) -> Seq<char> {
    match phase {
        Phase::Install => "  Command executed successfully."@,
        Phase::Configure => "  Configuration applied successfully."@,
        Phase::Deconfigure => "  Deconfiguration applied successfully."@,
        Phase::Uninstall => "  Uninstallation executed successfully."@,
    }
}

/// The line that reports the failure of an instruction of `phase`.
pub open spec fn failure_line(phase: Phase, error: ExecutionError) -> Seq<char> {
    match phase {
        Phase::Install => "  Command failed: "@ + error_text(error),
        Phase::Configure => "  Configuration failed: "@ + error_text(error),
        Phase::Deconfigure => "  Deconfiguration failed: "@ + error_text(error),
        Phase::Uninstall => "  Uninstallation failed: "@ + error_text(error),
    }
}

/// The line that opens the prerequisite checks.
pub open spec fn checking_line() -> Seq<char> {
    "  Checking prerequisites..."@
}

/// The line that reports that the package `name` is installed already
/// and that its installation is skipped.
pub open spec fn skip_line(name: Seq<char>) -> Seq<char> {
    "  Program already installed, skipping installation: "@ + name
}

/// The line that reports that a prerequisite check failed.
pub open spec fn proceed_line() -> Seq<char> {
    "  Prerequisites not met, proceeding with installation."@
}

/// The line that reports that the package has no instructions for the
/// operating system.
pub open spec fn missing_line(name: Seq<char>) -> Seq<char> {
    "  No instructions found for this operating system: "@ + name
}

/// The step that logs `text` and continues at `then`.
pub open spec fn emit(level: LogLevel, text: Seq<char>, then: WorkerStage) -> WorkerStepView {
    WorkerStepView::Perform { effect: EffectView::Log { level, text }, then }
}

/// The step that ends a worker with `exit`.
pub open spec fn done(exit: WorkerExit) -> WorkerStepView {
    WorkerStepView::Finish { exit }
}

/// What the worker does with a step of prerequisite check number `index`:
/// an effect is passed on; success means that the package is installed
/// already; failure means that it is not.
pub open spec fn after_check(name: Seq<char>, index: usize, step: StepView) -> WorkerStepView {
    match step {
        StepView::Perform { effect, then } => WorkerStepView::Perform {
            effect,
            then: WorkerStage::Checking { index, stage: then },
        },
        StepView::Finish { result } => if result is Ok {
            emit(LogLevel::Info, skip_line(name), WorkerStage::Skipped)
        } else {
            emit(LogLevel::Info, proceed_line(), WorkerStage::CheckFailed { index })
        },
    }
}

/// What the worker does with a step of instruction number `index` of its
/// phase: an effect is passed on; success and failure are logged.
pub open spec fn after_run(phase: Phase, index: usize, step: StepView) -> WorkerStepView {
    match step {
        StepView::Perform { effect, then } => WorkerStepView::Perform {
            effect,
            then: WorkerStage::Running { index, stage: then },
        },
        StepView::Finish { result } => match result {
            Ok(_) => emit(LogLevel::Info, success_line(phase), WorkerStage::RanNoted { index }),
            Err(error) => emit(
                LogLevel::Error,
                failure_line(phase, error),
                WorkerStage::FailureNoted { error },
            ),
        },
    }
}

/// Starts instruction number `index` of the phase, or ends the worker
/// where the list is exhausted.
pub open spec fn run_from(
    worker: WorkerView,
    host: HostView,
    mapping: InstructionMappingView,
    index: usize,
) -> WorkerStepView {
    let list = phase_list(mapping, worker.phase);
    if index < list.len() {
        after_run(worker.phase, index, first_step(list[index as int], worker.dry_run, host))
    } else {
        done(WorkerExit::Completed)
    }
}

/// Starts prerequisite check number `index`, or turns to the install
/// instructions where no check is left.
pub open spec fn check_from(
    worker: WorkerView,
    host: HostView,
    mapping: InstructionMappingView,
    index: usize,
) -> WorkerStepView {
    if index < mapping.prerequisite_checks.len() {
        after_check(
            worker.package.name,
            index,
            first_step(mapping.prerequisite_checks[index as int], worker.dry_run, host),
        )
    } else {
        run_from(worker, host, mapping, 0)
    }
}

/// The first step of a worker: the line that opens its phase.
pub open spec fn worker_first(worker: WorkerView) -> WorkerStepView {
    emit(LogLevel::Info, opening_line(worker.phase, worker.package.name), WorkerStage::Announced)
}

/// The step of a worker after the host observed `outcome` for the effect
/// that was asked for at `stage`.
pub open spec fn worker_next(
    worker: WorkerView,
    host: HostView,
    stage: WorkerStage,
    outcome: OutcomeView,
) -> WorkerStepView {
    if !worker.package.mapping.contains_key(worker.os) {
        match stage {
            WorkerStage::Announced => emit(
                LogLevel::Error,
                missing_line(worker.package.name),
                WorkerStage::MissingNoted,
            ),
            _ => done(WorkerExit::Failed { error: ExecutionError::MissingOsMapping }),
        }
    } else {
        let mapping = worker.package.mapping[worker.os];
        let checks = mapping.prerequisite_checks;
        let list = phase_list(mapping, worker.phase);
        match stage {
            WorkerStage::Announced => if worker.phase == Phase::Install && checks.len() > 0 {
                emit(LogLevel::Info, checking_line(), WorkerStage::ChecksAnnounced)
            } else {
                run_from(worker, host, mapping, 0)
            },
            WorkerStage::ChecksAnnounced => check_from(worker, host, mapping, 0),
            WorkerStage::Checking { index, stage } => if index < checks.len() {
                after_check(
                    worker.package.name,
                    index,
                    next_step(checks[index as int], host, stage, outcome),
                )
            } else {
                done(WorkerExit::Failed { error: ExecutionError::UnexpectedOutcome })
            },
            WorkerStage::CheckFailed { index } => if index < checks.len() {
                check_from(worker, host, mapping, (index + 1) as usize)
            } else {
                done(WorkerExit::Failed { error: ExecutionError::UnexpectedOutcome })
            },
            WorkerStage::Skipped => done(WorkerExit::AlreadyInstalled),
            WorkerStage::Running { index, stage } => if index < list.len() {
                after_run(
                    worker.phase,
                    index,
                    next_step(list[index as int], host, stage, outcome),
                )
            } else {
                done(WorkerExit::Failed { error: ExecutionError::UnexpectedOutcome })
            },
            WorkerStage::RanNoted { index } => if index < list.len() {
                run_from(worker, host, mapping, (index + 1) as usize)
            } else {
                done(WorkerExit::Failed { error: ExecutionError::UnexpectedOutcome })
            },
            WorkerStage::FailureNoted { error } => done(WorkerExit::Failed { error }),
            WorkerStage::MissingNoted => done(
                WorkerExit::Failed { error: ExecutionError::MissingOsMapping },
            ),
        }
    }
}

/// The step that logs `text` and continues at `then`.
fn emit_step(level: LogLevel, text: String, then: WorkerStage) -> (step: WorkerStep)
    ensures
        step@ == emit(level, text@, then),
{
    WorkerStep::Perform { effect: Effect::Log { level, text }, then }
}

/// The step that ends a worker with `exit`.
fn done_step(exit: WorkerExit) -> (step: WorkerStep)
    ensures
        step@ == done(exit),
{
    WorkerStep::Finish { exit }
}

/// The instructions of `mapping` for `phase`.
pub fn phase_instructions(mapping: &InstructionMapping, phase: Phase) -> (list: &Vec<Instructions>)
    ensures
        instruction_views(list@) == phase_list(mapping@, phase),
{
    match phase {
        Phase::Install => mapping.install_instructions(),
        Phase::Configure => mapping.configuration_instructions(),
        Phase::Deconfigure => mapping.deconfiguration_instructions(),
        Phase::Uninstall => mapping.uninstall_instructions(),
    }
}

/// What the worker does with a step of prerequisite check number `index`.
fn check_step(name: &str, index: usize, step: Step) -> (next: WorkerStep)
    ensures
        next@ == after_check(name@, index, step@),
{
    match step {
        Step::Perform { effect, then } => WorkerStep::Perform {
            effect,
            then: WorkerStage::Checking { index, stage: then },
        },
        Step::Finish { result } => if result.is_ok() {
            let mut text = String::from_str(
                "  Program already installed, skipping installation: ",
            );
            text.append(name);
            emit_step(LogLevel::Info, text, WorkerStage::Skipped)
        } else {
            emit_step(
                LogLevel::Info,
                String::from_str("  Prerequisites not met, proceeding with installation."),
                WorkerStage::CheckFailed { index },
            )
        },
    }
}

/// What the worker does with a step of instruction number `index`.
fn run_step(phase: Phase, index: usize, step: Step) -> (next: WorkerStep)
    ensures
        next@ == after_run(phase, index, step@),
{
    match step {
        Step::Perform { effect, then } => WorkerStep::Perform {
            effect,
            then: WorkerStage::Running { index, stage: then },
        },
        Step::Finish { result } => match result {
            Ok(_) => {
                let text = match phase {
                    Phase::Install => "  Command executed successfully.",
                    Phase::Configure => "  Configuration applied successfully.",
                    Phase::Deconfigure => "  Deconfiguration applied successfully.",
                    Phase::Uninstall => "  Uninstallation executed successfully.",
                };
                emit_step(LogLevel::Info, String::from_str(text), WorkerStage::RanNoted { index })
            },
            Err(error) => {
                let head = match phase {
                    Phase::Install => "  Command failed: ",
                    Phase::Configure => "  Configuration failed: ",
                    Phase::Deconfigure => "  Deconfiguration failed: ",
                    Phase::Uninstall => "  Uninstallation failed: ",
                };
                let mut text = String::from_str(head);
                text.append(error.describe().as_str());
                emit_step(LogLevel::Error, text, WorkerStage::FailureNoted { error })
            },
        },
    }
}

impl Worker {
    /// The worker that takes `package` through `phase` on `os`.
    pub fn new(package: Package, os: OS, phase: Phase, dry_run: bool) -> (worker: Self)
        ensures
            worker@ == (WorkerView { package: package@, os, phase, dry_run }),
    {
        Worker { package, os, phase, dry_run }
    }

    /// The package that the worker works on.
    pub fn package(&self) -> (package: &Package)
        ensures
            package@ == self@.package,
    {
        &self.package
    }

    /// The phase that the worker takes the package through.
    pub fn phase(&self) -> (phase: Phase)
        ensures
            phase == self@.phase,
    {
        self.phase
    }

    /// Starts instruction number `index` of the phase.
    fn run_from(&self, host: &Host, mapping: &InstructionMapping, index: usize) -> (step:
        WorkerStep)
        ensures
            step@ == run_from(self@, host@, mapping@, index),
    {
        let list = phase_instructions(mapping, self.phase);
        if index < list.len() {
            assert(instruction_views(list@)[index as int] == list@[index as int]@);
            run_step(self.phase, index, list[index].run(self.dry_run, host))
        } else {
            done_step(WorkerExit::Completed)
        }
    }

    /// Starts prerequisite check number `index`.
    fn check_from(&self, host: &Host, mapping: &InstructionMapping, index: usize) -> (step:
        WorkerStep)
        ensures
            step@ == check_from(self@, host@, mapping@, index),
    {
        let checks = mapping.prerequisite_checks();
        if index < checks.len() {
            assert(instruction_views(checks@)[index as int] == checks@[index as int]@);
            check_step(self.package.name(), index, checks[index].run(self.dry_run, host))
        } else {
            self.run_from(host, mapping, 0)
        }
    }

    /// The first step of the worker.
    pub fn start(&self) -> (step: WorkerStep)
        ensures
            step@ == worker_first(self@),
    {
        let head = match self.phase {
            Phase::Install => "==> Installing program: ",
            Phase::Configure => "==> Configuring program: ",
            Phase::Deconfigure => "==> Deconfiguring program: ",
            Phase::Uninstall => "==> Uninstalling program: ",
        };
        let mut text = String::from_str(head);
        text.append(self.package.name());
        emit_step(LogLevel::Info, text, WorkerStage::Announced)
    }

    /// The step that follows the outcome of the effect asked for at `stage`.
    pub fn resume(&self, host: &Host, stage: WorkerStage, outcome: &Outcome) -> (step: WorkerStep)
        ensures
            step@ == worker_next(self@, host@, stage, outcome@),
    {
        match self.package.lookup(&self.os) {
            None => match stage {
                WorkerStage::Announced => {
                    let mut text = String::from_str(
                        "  No instructions found for this operating system: ",
                    );
                    text.append(self.package.name());
                    emit_step(LogLevel::Error, text, WorkerStage::MissingNoted)
                },
                _ => done_step(WorkerExit::Failed { error: ExecutionError::MissingOsMapping }),
            },
            Some(mapping) => {
                let checks = mapping.prerequisite_checks();
                let list = phase_instructions(mapping, self.phase);
                match stage {
                    WorkerStage::Announced => if self.phase == Phase::Install && checks.len()
                        > 0 {
                        emit_step(
                            LogLevel::Info,
                            String::from_str("  Checking prerequisites..."),
                            WorkerStage::ChecksAnnounced,
                        )
                    } else {
                        self.run_from(host, mapping, 0)
                    },
                    WorkerStage::ChecksAnnounced => self.check_from(host, mapping, 0),
                    WorkerStage::Checking { index, stage } => if index < checks.len() {
                        assert(instruction_views(checks@)[index as int] == checks@[index as int]@);
                        check_step(
                            self.package.name(),
                            index,
                            checks[index].resume(host, stage, outcome),
                        )
                    } else {
                        done_step(WorkerExit::Failed { error: ExecutionError::UnexpectedOutcome })
                    },
                    WorkerStage::CheckFailed { index } => if index < checks.len() {
                        self.check_from(host, mapping, index + 1)
                    } else {
                        done_step(WorkerExit::Failed { error: ExecutionError::UnexpectedOutcome })
                    },
                    WorkerStage::Skipped => done_step(WorkerExit::AlreadyInstalled),
                    WorkerStage::Running { index, stage } => if index < list.len() {
                        assert(instruction_views(list@)[index as int] == list@[index as int]@);
                        run_step(self.phase, index, list[index].resume(host, stage, outcome))
                    } else {
                        done_step(WorkerExit::Failed { error: ExecutionError::UnexpectedOutcome })
                    },
                    WorkerStage::RanNoted { index } => if index < list.len() {
                        self.run_from(host, mapping, index + 1)
                    } else {
                        done_step(WorkerExit::Failed { error: ExecutionError::UnexpectedOutcome })
                    },
                    WorkerStage::FailureNoted { error } => done_step(WorkerExit::Failed { error }),
                    WorkerStage::MissingNoted => done_step(
                        WorkerExit::Failed { error: ExecutionError::MissingOsMapping },
                    ),
                }
            },
        }
    }
}

/// The steps of a worker that continues from `step` while the host answers
/// each effect with the next of `outcomes`.
pub open spec fn worker_steps_from(
    worker: WorkerView,
    host: HostView,
    step: WorkerStepView,
    outcomes: Seq<OutcomeView>,
) -> Seq<WorkerStepView>
    decreases outcomes.len(),
{
    match step {
        WorkerStepView::Finish { .. } => seq![step],
        WorkerStepView::Perform { then, .. } => if outcomes.len() == 0 {
            seq![step]
        } else {
            seq![step] + worker_steps_from(
                worker,
                host,
                worker_next(worker, host, then, outcomes[0]),
                outcomes.skip(1),
            )
        },
    }
}

/// The steps of a worker from its start.
pub open spec fn worker_steps(worker: WorkerView, host: HostView, outcomes: Seq<OutcomeView>) -> Seq<
    WorkerStepView,
> {
    worker_steps_from(worker, host, worker_first(worker), outcomes)
}

/// Whether `step` reports that a prerequisite check succeeded.
pub open spec fn reports_skip(step: WorkerStepView) -> bool {
    step matches WorkerStepView::Perform { then, .. } && then is Skipped
}

/// Whether `step` belongs to the instructions of the worker's phase: it
/// passes on the effect of one of them, or logs how one of them ended.
pub open spec fn touches_phase_list(step: WorkerStepView) -> bool {
    step matches WorkerStepView::Perform { then, .. } && (then is Running || then is RanNoted
        || then is FailureNoted)
}

/// Whether the worker has left the prerequisite checks behind at `step`.
spec fn past_checks(step: WorkerStepView) -> bool {
    match step {
        WorkerStepView::Finish { .. } => true,
        WorkerStepView::Perform { then, .. } => then is Running || then is RanNoted
            || then is FailureNoted || then is MissingNoted,
    }
}

/// Whether the worker has not yet settled the prerequisite checks at `step`.
spec fn before_or_in_checks(step: WorkerStepView) -> bool {
    step matches WorkerStepView::Perform { then, .. } && (then is Announced
        || then is ChecksAnnounced || then is Checking || then is CheckFailed)
}

/// Once the prerequisite checks are left behind, no step reports a skip.
proof fn lemma_no_skip_past_checks(
    worker: WorkerView,
    host: HostView,
    step: WorkerStepView,
    outcomes: Seq<OutcomeView>,
)
    requires
        past_checks(step),
    ensures
        forall|i: int|
            0 <= i < worker_steps_from(worker, host, step, outcomes).len() ==> !reports_skip(
                #[trigger] worker_steps_from(worker, host, step, outcomes)[i],
            ),
    decreases outcomes.len(),
{
    let steps = worker_steps_from(worker, host, step, outcomes);
    match step {
        WorkerStepView::Finish { .. } => {},
        WorkerStepView::Perform { then, .. } => {
            if outcomes.len() > 0 {
                let next = worker_next(worker, host, then, outcomes[0]);
                let tail = worker_steps_from(worker, host, next, outcomes.skip(1));
                assert(past_checks(next));
                lemma_no_skip_past_checks(worker, host, next, outcomes.skip(1));
                assert forall|i: int| 0 <= i < steps.len() implies !reports_skip(
                    #[trigger] steps[i],
                ) by {
                    if i > 0 {
                        assert(steps[i] == tail[i - 1]);
                    }
                }
            }
        },
    }
}

/// After the report of a skip the worker ends at once.
proof fn lemma_skip_ends_the_worker(
    worker: WorkerView,
    host: HostView,
    step: WorkerStepView,
    outcomes: Seq<OutcomeView>,
)
    requires
        reports_skip(step),
        worker.package.mapping.contains_key(worker.os),
    ensures
        forall|i: int|
            0 <= i < worker_steps_from(worker, host, step, outcomes).len()
                ==> !touches_phase_list(
                #[trigger] worker_steps_from(worker, host, step, outcomes)[i],
            ),
{
    let steps = worker_steps_from(worker, host, step, outcomes);
    if outcomes.len() > 0 {
        let next = done(WorkerExit::AlreadyInstalled);
        assert(worker_steps_from(worker, host, next, outcomes.skip(1)) == seq![next]);
        assert(steps =~= seq![step, next]);
    }
}

/// From a step at which the prerequisite checks are not yet settled: where
/// some later step reports a skip, no step belongs to the instructions of
/// the phase.
proof fn lemma_short_circuit_from(
    worker: WorkerView,
    host: HostView,
    step: WorkerStepView,
    outcomes: Seq<OutcomeView>,
)
    requires
        before_or_in_checks(step),
    ensures
        (exists|i: int|
            0 <= i < worker_steps_from(worker, host, step, outcomes).len() && reports_skip(
                #[trigger] worker_steps_from(worker, host, step, outcomes)[i],
            )) ==> forall|j: int|
            0 <= j < worker_steps_from(worker, host, step, outcomes).len()
                ==> !touches_phase_list(
                #[trigger] worker_steps_from(worker, host, step, outcomes)[j],
            ),
    decreases outcomes.len(),
{
    let steps = worker_steps_from(worker, host, step, outcomes);
    let then = step->then;
    if outcomes.len() > 0 {
        let next = worker_next(worker, host, then, outcomes[0]);
        let tail = worker_steps_from(worker, host, next, outcomes.skip(1));
        assert(steps == seq![step] + tail);
        assert(past_checks(next) || before_or_in_checks(next) || reports_skip(next));
        if reports_skip(next) {
            assert(worker.package.mapping.contains_key(worker.os));
            lemma_skip_ends_the_worker(worker, host, next, outcomes.skip(1));
            assert forall|j: int| 0 <= j < steps.len() implies !touches_phase_list(
                #[trigger] steps[j],
            ) by {
                if j > 0 {
                    assert(steps[j] == tail[j - 1]);
                }
            }
        } else if before_or_in_checks(next) {
            lemma_short_circuit_from(worker, host, next, outcomes.skip(1));
            if exists|i: int| 0 <= i < steps.len() && reports_skip(#[trigger] steps[i]) {
                let i = choose|i: int| 0 <= i < steps.len() && reports_skip(#[trigger] steps[i]);
                assert(i > 0);
                assert(steps[i] == tail[i - 1]);
                assert(reports_skip(tail[i - 1]));
                assert forall|j: int| 0 <= j < steps.len() implies !touches_phase_list(
                    #[trigger] steps[j],
                ) by {
                    if j > 0 {
                        assert(steps[j] == tail[j - 1]);
                    }
                }
            }
        } else {
            lemma_no_skip_past_checks(worker, host, next, outcomes.skip(1));
            assert forall|i: int| 0 <= i < steps.len() implies !reports_skip(
                #[trigger] steps[i],
            ) by {
                if i > 0 {
                    assert(steps[i] == tail[i - 1]);
                }
            }
        }
    }
}

/// A prerequisite check that succeeds settles the matter: the worker
/// reports that the package is installed already and ends, whatever the
/// check was and whatever the host answers to the report.
pub proof fn lemma_successful_check_skips(
    worker: WorkerView,
    host: HostView,
    index: usize,
    stage: Stage,
    outcome: OutcomeView,
    answer: OutcomeView,
)
    requires
        worker.package.mapping.contains_key(worker.os),
        index < worker.package.mapping[worker.os].prerequisite_checks.len(),
        next_step(
            worker.package.mapping[worker.os].prerequisite_checks[index as int],
            host,
            stage,
            outcome,
        ) == (StepView::Finish { result: Ok(()) }),
    ensures
        worker_next(worker, host, WorkerStage::Checking { index, stage }, outcome) == emit(
            LogLevel::Info,
            skip_line(worker.package.name),
            WorkerStage::Skipped,
        ),
        worker_next(worker, host, WorkerStage::Skipped, answer) == done(
            WorkerExit::AlreadyInstalled,
        ),
{
}

/// Prerequisite short-circuit. In a run of a worker in which a
/// prerequisite check succeeds, so that the worker reports the package as
/// installed already, no step belongs to the package's install
/// instructions: none of their effects is asked for, and nothing is logged
/// about them. This holds for every package, host and sequence of answers.
pub proof fn lemma_prerequisite_short_circuit(
    worker: WorkerView,
    host: HostView,
    outcomes: Seq<OutcomeView>,
)
    ensures
        (exists|i: int|
            0 <= i < worker_steps(worker, host, outcomes).len() && reports_skip(
                #[trigger] worker_steps(worker, host, outcomes)[i],
            )) ==> forall|j: int|
            0 <= j < worker_steps(worker, host, outcomes).len() ==> !touches_phase_list(
                #[trigger] worker_steps(worker, host, outcomes)[j],
            ),
{
    lemma_short_circuit_from(worker, host, worker_first(worker), outcomes);
}

/// A worker that fails names the error at which it stopped: after the
/// failure of an instruction is logged, the worker ends with that error
/// and starts no further instruction.
pub proof fn lemma_failure_stops_the_list(
    worker: WorkerView,
    host: HostView,
    index: usize,
    stage: Stage,
    outcome: OutcomeView,
    answer: OutcomeView,
    error: ExecutionError,
)
    requires
        worker.package.mapping.contains_key(worker.os),
        index < phase_list(worker.package.mapping[worker.os], worker.phase).len(),
        next_step(
            phase_list(worker.package.mapping[worker.os], worker.phase)[index as int],
            host,
            stage,
            outcome,
        ) == (StepView::Finish { result: Err(error) }),
    ensures
        worker_next(worker, host, WorkerStage::Running { index, stage }, outcome) == emit(
            LogLevel::Error,
            failure_line(worker.phase, error),
            WorkerStage::FailureNoted { error },
        ),
        worker_next(worker, host, WorkerStage::FailureNoted { error }, answer) == done(
            WorkerExit::Failed { error },
        ),
{
}

/// Whether `step` is one that a worker takes in a dry run: it asks for
/// nothing but a report, and where the report is that of an instruction,
/// nothing is left of the instruction afterwards.
spec fn is_dry(step: WorkerStepView) -> bool {
    match step {
        WorkerStepView::Finish { .. } => true,
        WorkerStepView::Perform { effect, then } => {
            &&& effect.is_report()
            &&& then matches WorkerStage::Checking { stage, .. } ==> stage == Stage::Finished
            &&& then matches WorkerStage::Running { stage, .. } ==> stage == Stage::Finished
        },
    }
}

/// In a dry run a dry step is followed by a dry step.
proof fn lemma_dry_steps_from(
    worker: WorkerView,
    host: HostView,
    step: WorkerStepView,
    outcomes: Seq<OutcomeView>,
)
    requires
        worker.dry_run,
        is_dry(step),
    ensures
        forall|i: int|
            0 <= i < worker_steps_from(worker, host, step, outcomes).len() ==> is_dry(
                #[trigger] worker_steps_from(worker, host, step, outcomes)[i],
            ),
    decreases outcomes.len(),
{
    let steps = worker_steps_from(worker, host, step, outcomes);
    match step {
        WorkerStepView::Finish { .. } => {},
        WorkerStepView::Perform { then, .. } => {
            if outcomes.len() > 0 {
                let next = worker_next(worker, host, then, outcomes[0]);
                let tail = worker_steps_from(worker, host, next, outcomes.skip(1));
                if worker.package.mapping.contains_key(worker.os) {
                    let mapping = worker.package.mapping[worker.os];
                    match then {
                        WorkerStage::Checking { index, stage } => {
                            if index < mapping.prerequisite_checks.len() {
                                lemma_finished_succeeds(
                                    mapping.prerequisite_checks[index as int],
                                    host,
                                    outcomes[0],
                                );
                            }
                        },
                        WorkerStage::Running { index, stage } => {
                            let list = phase_list(mapping, worker.phase);
                            if index < list.len() {
                                lemma_finished_succeeds(
                                    list[index as int],
                                    host,
                                    outcomes[0],
                                );
                            }
                        },
                        _ => {},
                    }
                }
                assert(is_dry(next));
                lemma_dry_steps_from(worker, host, next, outcomes.skip(1));
                assert forall|i: int| 0 <= i < steps.len() implies is_dry(#[trigger] steps[i]) by {
                    if i > 0 {
                        assert(steps[i] == tail[i - 1]);
                    }
                }
            }
        },
    }
}

/// A dry run stays dry through a whole phase. Whatever the package, the
/// phase, the host and the host's answers: a worker in a dry run asks for
/// nothing but reports. No step of it asks for a network call, a process or
/// a change to the file system.
pub proof fn lemma_dry_run_worker_only_reports(
    worker: WorkerView,
    host: HostView,
    outcomes: Seq<OutcomeView>,
)
    requires
        worker.dry_run,
    ensures
        forall|i: int|
            0 <= i < worker_steps(worker, host, outcomes).len() ==> (#[trigger] worker_steps(
                worker,
                host,
                outcomes,
            )[i] matches WorkerStepView::Perform { effect, .. } ==> effect.is_report()
                && !effect.is_network_call() && !effect.is_process_spawn()
                && !effect.is_filesystem_write()),
{
    lemma_dry_steps_from(worker, host, worker_first(worker), outcomes);
    assert forall|i: int| 0 <= i < worker_steps(worker, host, outcomes).len() implies (
    #[trigger] worker_steps(worker, host, outcomes)[i] matches WorkerStepView::Perform {
        effect,
        ..
    } ==> effect.is_report() && !effect.is_network_call() && !effect.is_process_spawn()
        && !effect.is_filesystem_write()) by {
        assert(is_dry(worker_steps(worker, host, outcomes)[i]));
    }
}

} // verus!
