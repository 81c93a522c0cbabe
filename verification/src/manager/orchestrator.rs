//! The phases of a bundle and the barrier between them.
//!
//! Installing a bundle takes two phases, install and then configure;
//! removing it takes deconfigure and then uninstall. Within a phase every
//! package that has work to do gets a [`Worker`] of its own, and the host
//! program runs these side by side. A [`BundleRun`] keeps the books: it
//! hands out the workers of a phase, is told of every worker that the host
//! has joined, and hands out the next phase only when none is outstanding.
//!
//! How a worker ended is logged and otherwise ignored: a package that
//! fails holds up neither its siblings nor the phases that follow, and the
//! run as a whole ends with success.

use crate::config::machine::OS;
use crate::logger::LogLevel;
use crate::manager::effects::{error_text, ExecutionError};
use crate::manager::worker::{
    phase_instructions, phase_list, Phase, Worker, WorkerExit, WorkerView,
};
use crate::manager::{package_views, PackageView, SoftwareBundle, SoftwareBundleView};
use vstd::prelude::*;
use vstd::string::*;

verus! {

/// What is done with a bundle.
#[derive(Debug, Clone, Copy, PartialEq, Eq, Structural, Hash)]
pub enum Operation {
    /// Install the packages, then configure them
    Install,
    /// Deconfigure the packages, then uninstall them
    Uninstall,
}

/// The first phase of `operation`.
pub open spec fn first_phase(operation: Operation) -> Phase {
    match operation {
        Operation::Install => Phase::Install,
        Operation::Uninstall => Phase::Deconfigure,
    }
}

/// The second phase of `operation`.
pub open spec fn second_phase(operation: Operation) -> Phase {
    match operation {
        Operation::Install => Phase::Configure,
        Operation::Uninstall => Phase::Uninstall,
    }
}

/// A message for the logging path.
#[derive(Debug, Clone, PartialEq, Eq)]
pub struct LogLine {
    pub level: LogLevel,
    pub text: String,
}

/// The mathematical content of a [`LogLine`].
pub struct LogLineView {
    pub level: LogLevel,
    pub text: Seq<char>,
}

impl View for LogLine {
    type V = LogLineView;

    open spec fn view(&self) -> LogLineView {
        LogLineView { level: self.level, text: self.text@ }
    }
}

/// The mathematical content of each line of `lines`.
pub open spec fn line_views(lines: Seq<LogLine>) -> Seq<LogLineView> {
    Seq::new(lines.len(), |i: int| lines[i]@)
}

/// The mathematical content of each worker of `workers`.
pub open spec fn worker_views(workers: Seq<Worker>) -> Seq<WorkerView> {
    Seq::new(workers.len(), |i: int| workers[i]@)
}

/// How the host found a worker when it joined it.
#[derive(Debug, Clone, Copy, PartialEq, Eq, Hash)]
pub enum JoinReport {
    /// The worker ran to its end.
    Exited { exit: WorkerExit },
    /// The worker crashed.
    Panicked,
}

/// What a run asks the host to do next.
#[derive(Debug, PartialEq, Eq)]
pub enum Advance {
    /// Log `notes`, run each of `workers` to its end, side by side, and
    /// report every one of them as joined.
    Launch { phase: Phase, workers: Vec<Worker>, notes: Vec<LogLine> },
    /// Nothing yet: `outstanding` workers of the current phase have not
    /// been joined.
    Blocked { outstanding: usize },
    /// The run is over. Log `closing` and return `result`.
    Complete { result: Result<(), ExecutionError>, closing: LogLine },
}

/// The mathematical content of an [`Advance`].
pub enum AdvanceView {
    Launch { phase: Phase, workers: Seq<WorkerView>, notes: Seq<LogLineView> },
    Blocked { outstanding: nat },
    Complete { result: Result<(), ExecutionError>, closing: LogLineView },
}

impl View for Advance {
    type V = AdvanceView;

    open spec fn view(&self) -> AdvanceView {
        match self {
            Advance::Launch { phase, workers, notes } => AdvanceView::Launch {
                phase: *phase,
                workers: worker_views(workers@),
                notes: line_views(notes@),
            },
            Advance::Blocked { outstanding } => AdvanceView::Blocked {
                outstanding: *outstanding as nat,
            },
            Advance::Complete { result, closing } => AdvanceView::Complete {
                result: *result,
                closing: closing@,
            },
        }
    }
}

/// Whether `package` has work to do in `phase` on `os`: it has instructions
/// for `os`, and their list for `phase` is not empty.
pub open spec fn has_work(package: PackageView, os: OS, phase: Phase) -> bool {
    package.mapping.contains_key(os) && phase_list(package.mapping[os], phase).len() > 0
}

/// The workers of `phase`: one for each package that has work to do, in the
/// order of the bundle.
pub open spec fn planned_workers(
    programs: Seq<PackageView>,
    os: OS,
    phase: Phase,
    dry_run: bool,
) -> Seq<WorkerView>
    decreases programs.len(),
{
    if programs.len() == 0 {
        Seq::empty()
    } else {
        let front = planned_workers(programs.drop_last(), os, phase, dry_run);
        if has_work(programs.last(), os, phase) {
            front.push(WorkerView { package: programs.last(), os, phase, dry_run })
        } else {
            front
        }
    }
}

/// What `phase` is called in a note.
pub open spec fn phase_noun(phase: Phase) -> Seq<char> {
    match phase {
        Phase::Install => "installation"@,
        Phase::Configure => "configuration"@,
        Phase::Deconfigure => "deconfiguration"@,
        Phase::Uninstall => "uninstallation"@,
    }
}

/// The note on a package that gets no worker in `phase`: an error where it
/// has no instructions for `os` at all, a remark where it has none for the
/// phase.
pub open spec fn idle_note(package: PackageView, os: OS, phase: Phase) -> LogLineView {
    if package.mapping.contains_key(os) {
        LogLineView {
            level: LogLevel::Info,
            text: "No "@ + phase_noun(phase) + " functions for program: "@ + package.name,
        }
    } else {
        LogLineView {
            level: LogLevel::Error,
            text: "No "@ + phase_noun(phase) + " mapping found for program: "@ + package.name,
        }
    }
}

/// The notes on the packages that get no worker in `phase`, in the order
/// of the bundle.
pub open spec fn idle_notes(programs: Seq<PackageView>, os: OS, phase: Phase) -> Seq<LogLineView>
    decreases programs.len(),
{
    if programs.len() == 0 {
        Seq::empty()
    } else {
        let front = idle_notes(programs.drop_last(), os, phase);
        if has_work(programs.last(), os, phase) {
            front
        } else {
            front.push(idle_note(programs.last(), os, phase))
        }
    }
}

/// The lines that open `operation` on `bundle`.
pub open spec fn opening_notes(bundle: SoftwareBundleView, operation: Operation) -> Seq<
    LogLineView,
> {
    seq![
        LogLineView {
            level: LogLevel::Info,
            text: match operation {
                Operation::Install => "==> Installing bundle: "@ + bundle.name,
                Operation::Uninstall => "==> Uninstalling bundle: "@ + bundle.name,
            },
        },
        LogLineView { level: LogLevel::Info, text: "Description: "@ + bundle.description },
    ]
}

/// The line that closes `operation`. It is logged however the packages
/// fared.
pub open spec fn closing_note(operation: Operation) -> LogLineView {
    LogLineView {
        level: LogLevel::Info,
        text: match operation {
            Operation::Install => "==> Installation complete."@,
            Operation::Uninstall => "==> Uninstallation complete."@,
        },
    }
}

/// The line that reports a worker that crashed.
pub open spec fn panic_note() -> LogLineView {
    LogLineView { level: LogLevel::Critical, text: error_text(ExecutionError::WorkerPanic) }
}

/// The execution of one operation on one bundle.
#[derive(Debug)]
pub struct BundleRun<'a> {
    bundle: &'a SoftwareBundle,
    os: OS,
    dry_run: bool,
    operation: Operation,
    /// How many phases have been handed out
    launched: u8,
    /// How many workers of the current phase have not been joined
    outstanding: usize,
}

/// The mathematical content of a [`BundleRun`].
pub struct BundleRunView {
    pub bundle: SoftwareBundleView,
    pub os: OS,
    pub dry_run: bool,
    pub operation: Operation,
    /// How many phases have been handed out
    pub launched: nat,
    /// How many workers of the current phase have not been joined
    pub outstanding: nat,
}

impl<'a> View for BundleRun<'a> {
    type V = BundleRunView;

    closed spec fn view(&self) -> BundleRunView {
        BundleRunView {
            bundle: self.bundle@,
            os: self.os,
            dry_run: self.dry_run,
            operation: self.operation,
            launched: self.launched as nat,
            outstanding: self.outstanding as nat,
        }
    }
}

/// A run that has not handed out anything yet.
pub open spec fn fresh_run(
    bundle: SoftwareBundleView,
    os: OS,
    dry_run: bool,
    operation: Operation,
) -> BundleRunView {
    BundleRunView { bundle, os, dry_run, operation, launched: 0, outstanding: 0 }
}

/// The phase that `run` hands out next, while it has one.
pub open spec fn upcoming_phase(run: BundleRunView) -> Phase {
    if run.launched == 0 {
        first_phase(run.operation)
    } else {
        second_phase(run.operation)
    }
}

/// What `run` asks for next, and what becomes of it.
///
/// While a worker is outstanding the run is blocked and stays as it is.
/// Otherwise it hands out its next phase, or ends with success where both
/// phases have been handed out.
pub open spec fn advance_of(run: BundleRunView) -> (BundleRunView, AdvanceView) {
    if run.outstanding > 0 {
        (run, AdvanceView::Blocked { outstanding: run.outstanding })
    } else if run.launched >= 2 {
        (run, AdvanceView::Complete { result: Ok(()), closing: closing_note(run.operation) })
    } else {
        let phase = upcoming_phase(run);
        let workers = planned_workers(run.bundle.programs, run.os, phase, run.dry_run);
        let idle = idle_notes(run.bundle.programs, run.os, phase);
        (
            BundleRunView { launched: run.launched + 1, outstanding: workers.len(), ..run },
            AdvanceView::Launch {
                phase,
                workers,
                notes: if run.launched == 0 {
                    opening_notes(run.bundle, run.operation) + idle
                } else {
                    idle
                },
            },
        )
    }
}

/// What becomes of `run` when the host has joined a worker, and the line
/// to log about it, if any. How the worker ended changes nothing but that
/// line.
pub open spec fn joined_of(run: BundleRunView, report: JoinReport) -> (
    BundleRunView,
    Option<LogLineView>,
) {
    (
        if run.outstanding > 0 {
            BundleRunView { outstanding: (run.outstanding - 1) as nat, ..run }
        } else {
            run
        },
        match report {
            JoinReport::Panicked => Some(panic_note()),
            JoinReport::Exited { .. } => None,
        },
    )
}

/// A line for the logging path.
fn line(level: LogLevel, head: &str, middle: &str, tail: &str, name: &str) -> (line: LogLine)
    ensures
        line@ == (LogLineView { level, text: head@ + middle@ + tail@ + name@ }),
{
    let mut text = String::from_str(head);
    text.append(middle);
    text.append(tail);
    text.append(name);
    LogLine { level, text }
}

/// What `phase` is called in a note.
fn noun(phase: Phase) -> (text: &'static str)
    ensures
        text@ == phase_noun(phase),
{
    match phase {
        Phase::Install => "installation",
        Phase::Configure => "configuration",
        Phase::Deconfigure => "deconfiguration",
        Phase::Uninstall => "uninstallation",
    }
}

impl SoftwareBundle {
    /// Begins the installation of the bundle on `os`: the install phase,
    /// then the configure phase.
    pub fn install(&self, os: &OS, dry_run: bool) -> (run: BundleRun<'_>)
        ensures
            run@ == fresh_run(self@, *os, dry_run, Operation::Install),
    {
        BundleRun {
            bundle: self,
            os: *os,
            dry_run,
            operation: Operation::Install,
            launched: 0,
            outstanding: 0,
        }
    }

    /// Begins the removal of the bundle from `os`: the deconfigure phase,
    /// then the uninstall phase.
    pub fn uninstall(&self, os: &OS, dry_run: bool) -> (run: BundleRun<'_>)
        ensures
            run@ == fresh_run(self@, *os, dry_run, Operation::Uninstall),
    {
        BundleRun {
            bundle: self,
            os: *os,
            dry_run,
            operation: Operation::Uninstall,
            launched: 0,
            outstanding: 0,
        }
    }
}

impl<'a> BundleRun<'a> {
    /// Adds the lines that open the operation to `notes`.
    fn push_opening(&self, notes: &mut Vec<LogLine>)
        requires
            old(notes)@.len() == 0,
        ensures
            line_views(final(notes)@) == opening_notes(self@.bundle, self@.operation),
    {
        let head = match self.operation {
            Operation::Install => "==> Installing bundle: ",
            Operation::Uninstall => "==> Uninstalling bundle: ",
        };
        let mut first = String::from_str(head);
        first.append(self.bundle.name());
        let mut second = String::from_str("Description: ");
        second.append(self.bundle.description());
        notes.push(LogLine { level: LogLevel::Info, text: first });
        notes.push(LogLine { level: LogLevel::Info, text: second });
        assert(line_views(notes@) =~= opening_notes(self@.bundle, self@.operation));
    }

    /// Plans `phase`: a worker for each package that has work to do, and a
    /// note, added to `notes`, for each package that has none.
    fn plan(&self, phase: Phase, notes: &mut Vec<LogLine>) -> (workers: Vec<Worker>)
        ensures
            worker_views(workers@) == planned_workers(
                self@.bundle.programs,
                self@.os,
                phase,
                self@.dry_run,
            ),
            line_views(final(notes)@) == line_views(old(notes)@) + idle_notes(
                self@.bundle.programs,
                self@.os,
                phase,
            ),
    {
        let programs = self.bundle.programs();
        let ghost all = self@.bundle.programs;
        let ghost given = line_views(notes@);
        let mut workers: Vec<Worker> = Vec::new();
        let mut i: usize = 0;
        assert(all.take(0) =~= Seq::<PackageView>::empty());
        assert(worker_views(workers@) =~= Seq::<WorkerView>::empty());
        assert(given + Seq::<LogLineView>::empty() =~= given);
        while i < programs.len()
            invariant
                i <= programs.len(),
                all == package_views(programs@),
                all == self@.bundle.programs,
                worker_views(workers@) == planned_workers(
                    all.take(i as int),
                    self@.os,
                    phase,
                    self@.dry_run,
                ),
                line_views(notes@) == given + idle_notes(all.take(i as int), self@.os, phase),
            decreases programs.len() - i,
        {
            let program = &programs[i];
            let ghost so_far = worker_views(workers@);
            let ghost noted = line_views(notes@);
            proof {
                assert(all.take(i + 1).drop_last() =~= all.take(i as int));
                assert(all.take(i + 1).last() == program@);
            }
            match program.lookup(&self.os) {
                Some(mapping) => {
                    if phase_instructions(mapping, phase).len() > 0 {
                        workers.push(
                            Worker::new(program.duplicate(), self.os, phase, self.dry_run),
                        );
                        assert(worker_views(workers@) =~= so_far.push(
                            WorkerView {
                                package: program@,
                                os: self@.os,
                                phase,
                                dry_run: self@.dry_run,
                            },
                        ));
                    } else {
                        notes.push(
                            line(
                                LogLevel::Info,
                                "No ",
                                noun(phase),
                                " functions for program: ",
                                program.name(),
                            ),
                        );
                        assert(line_views(notes@) =~= noted.push(
                            idle_note(program@, self@.os, phase),
                        ));
                        assert(given + idle_notes(all.take(i as int), self@.os, phase).push(
                            idle_note(program@, self@.os, phase),
                        ) =~= noted.push(idle_note(program@, self@.os, phase)));
                    }
                },
                None => {
                    notes.push(
                        line(
                            LogLevel::Error,
                            "No ",
                            noun(phase),
                            " mapping found for program: ",
                            program.name(),
                        ),
                    );
                    assert(line_views(notes@) =~= noted.push(idle_note(program@, self@.os, phase)));
                    assert(given + idle_notes(all.take(i as int), self@.os, phase).push(
                        idle_note(program@, self@.os, phase),
                    ) =~= noted.push(idle_note(program@, self@.os, phase)));
                },
            }
            i = i + 1;
        }
        assert(all.take(programs.len() as int) =~= all);
        workers
    }

    /// Asks the run what to do next.
    ///
    /// While workers of the current phase are outstanding the answer is
    /// [`Advance::Blocked`] and the run does not move: the next phase is
    /// never handed out before every worker of the current one is joined.
    pub fn advance(&mut self) -> (next: Advance)
        ensures
            (final(self)@, next@) == advance_of(old(self)@),
    {
        if self.outstanding > 0 {
            Advance::Blocked { outstanding: self.outstanding }
        } else if self.launched >= 2 {
            let text = match self.operation {
                Operation::Install => "==> Installation complete.",
                Operation::Uninstall => "==> Uninstallation complete.",
            };
            Advance::Complete {
                result: Ok(()),
                closing: LogLine { level: LogLevel::Info, text: String::from_str(text) },
            }
        } else {
            let phase = if self.launched == 0 {
                match self.operation {
                    Operation::Install => Phase::Install,
                    Operation::Uninstall => Phase::Deconfigure,
                }
            } else {
                match self.operation {
                    Operation::Install => Phase::Configure,
                    Operation::Uninstall => Phase::Uninstall,
                }
            };
            let mut notes: Vec<LogLine> = Vec::new();
            if self.launched == 0 {
                self.push_opening(&mut notes);
            } else {
                assert(line_views(notes@) =~= Seq::<LogLineView>::empty());
                assert(Seq::<LogLineView>::empty() + idle_notes(
                    self@.bundle.programs,
                    self@.os,
                    phase,
                ) =~= idle_notes(self@.bundle.programs, self@.os, phase));
            }
            let workers = self.plan(phase, &mut notes);
            self.launched = self.launched + 1;
            self.outstanding = workers.len();
            Advance::Launch { phase, workers, notes }
        }
    }

    /// Tells the run that the host has joined one worker of the current
    /// phase, and how it found it. The answer is the line to log about the
    /// worker, if there is one.
    pub fn worker_joined(&mut self, report: JoinReport) -> (note: Option<LogLine>)
        ensures
            (
                final(self)@,
                match note {
                    Some(line) => Some(line@),
                    None => None,
                },
            ) == joined_of(old(self)@, report),
    {
        if self.outstanding > 0 {
            self.outstanding = self.outstanding - 1;
        }
        match report {
            JoinReport::Panicked => Some(
                LogLine {
                    level: LogLevel::Critical,
                    text: ExecutionError::WorkerPanic.describe(),
                },
            ),
            JoinReport::Exited { .. } => None,
        }
    }

    /// How many workers of the current phase have not been joined.
    pub fn outstanding(&self) -> (count: usize)
        ensures
            count == self@.outstanding,
    {
        self.outstanding
    }
}

/// What happens to a run: the host asks it what to do next, or tells it
/// of a worker that it has joined.
pub enum RunEvent {
    /// The host called [`BundleRun::advance`].
    Advanced,
    /// The host called [`BundleRun::worker_joined`] with `report`.
    Joined { report: JoinReport },
}

/// What becomes of `run` at `event`.
pub open spec fn after_event(run: BundleRunView, event: RunEvent) -> BundleRunView {
    match event {
        RunEvent::Advanced => advance_of(run).0,
        RunEvent::Joined { report } => joined_of(run, report).0,
    }
}

/// What becomes of `run` after `events`, in order.
pub open spec fn after_events(run: BundleRunView, events: Seq<RunEvent>) -> BundleRunView
    decreases events.len(),
{
    if events.len() == 0 {
        run
    } else {
        after_event(after_events(run, events.drop_last()), events.last())
    }
}

/// The number of workers that `events` report as joined.
pub open spec fn joins_in(events: Seq<RunEvent>) -> nat
    decreases events.len(),
{
    if events.len() == 0 {
        0
    } else if events.last() is Joined {
        joins_in(events.drop_last()) + 1
    } else {
        joins_in(events.drop_last())
    }
}

/// `events` as they would be had every worker completed its phase.
pub open spec fn without_failures(events: Seq<RunEvent>) -> Seq<RunEvent> {
    Seq::new(
        events.len(),
        |i: int|
            match events[i] {
                RunEvent::Advanced => RunEvent::Advanced,
                RunEvent::Joined { .. } => RunEvent::Joined {
                    report: JoinReport::Exited { exit: WorkerExit::Completed },
                },
            },
    )
}

/// What holds of a run at every moment: it concerns the bundle it was
/// begun for; before the first phase nothing is outstanding; and the
/// workers of the first phase that are not accounted for by a join are
/// still outstanding.
proof fn lemma_run_invariant(
    bundle: SoftwareBundleView,
    os: OS,
    dry_run: bool,
    operation: Operation,
    events: Seq<RunEvent>,
)
    ensures
        ({
            let run = after_events(fresh_run(bundle, os, dry_run, operation), events);
            &&& run.bundle == bundle
            &&& run.os == os
            &&& run.dry_run == dry_run
            &&& run.operation == operation
            &&& run.launched <= 2
            &&& run.launched == 0 ==> run.outstanding == 0
            &&& run.launched >= 1 ==> run.outstanding + joins_in(events) >= planned_workers(
                bundle.programs,
                os,
                first_phase(operation),
                dry_run,
            ).len()
        }),
    decreases events.len(),
{
    if events.len() > 0 {
        lemma_run_invariant(bundle, os, dry_run, operation, events.drop_last());
    }
}

/// Phase barrier. Whatever the host does, in whatever order: at the moment
/// at which a run hands out its second phase, no worker of the first phase
/// is outstanding, and the host has reported at least as many joins as the
/// first phase had workers. So no package is configured before the install
/// phase has ended for all packages, and none is uninstalled before all
/// are deconfigured.
pub proof fn lemma_phase_barrier(
    bundle: SoftwareBundleView,
    os: OS,
    dry_run: bool,
    operation: Operation,
    events: Seq<RunEvent>,
    k: int,
)
    requires
        0 <= k < events.len(),
        after_events(fresh_run(bundle, os, dry_run, operation), events.take(k)).launched == 1,
        after_events(fresh_run(bundle, os, dry_run, operation), events.take(k + 1)).launched == 2,
    ensures
        events[k] is Advanced,
        after_events(fresh_run(bundle, os, dry_run, operation), events.take(k)).outstanding == 0,
        joins_in(events.take(k)) >= planned_workers(
            bundle.programs,
            os,
            first_phase(operation),
            dry_run,
        ).len(),
        advance_of(
            after_events(fresh_run(bundle, os, dry_run, operation), events.take(k)),
        ).1 matches AdvanceView::Launch { phase, .. } && phase == second_phase(operation),
{
    lemma_run_invariant(bundle, os, dry_run, operation, events.take(k));
    assert(events.take(k + 1).drop_last() =~= events.take(k));
    assert(events.take(k + 1).last() == events[k]);
}

/// A run never fails: when it is over, its result is success, however the
/// workers ended.
pub proof fn lemma_run_ends_with_success(run: BundleRunView)
    ensures
        advance_of(run).1 matches AdvanceView::Complete { result, .. } ==> result is Ok,
{
}

/// Failure isolation. How workers end has no influence on a run: after the
/// same calls, a run in which workers failed or crashed stands where it
/// would stand had every worker completed, and it hands out the same
/// workers for the same packages in the same phases.
pub proof fn lemma_failure_isolation(run: BundleRunView, events: Seq<RunEvent>)
    ensures
        after_events(run, events) == after_events(run, without_failures(events)),
        advance_of(after_events(run, events)) == advance_of(
            after_events(run, without_failures(events)),
        ),
    decreases events.len(),
{
    if events.len() > 0 {
        lemma_failure_isolation(run, events.drop_last());
        assert(without_failures(events).drop_last() =~= without_failures(events.drop_last()));
    }
}

} // verus!
