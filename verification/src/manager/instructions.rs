//! Instructions: the atomic operations of a package.
//!
//! An instruction holds the parameters of one operation and nothing else.
//! It is executed step by step: [`AnyInstruction::run`] yields the first
//! [`Step`], and [`AnyInstruction::resume`] yields the next one from the
//! [`Stage`] the instruction stood at and the [`Outcome`] that the host
//! observed. What these steps are is laid down in
//! [`crate::manager::semantics`].
//!
//! In a dry run every instruction reports what it would do and succeeds; it
//! asks the host for nothing else.

pub use crate::manager::semantics::{ArchiveFormat, InstallerKind, InstructionsView};

use crate::logger::LogLevel;
use crate::manager::effects::{
    Effect, EffectView, ExecutionError, Host, HostView, Outcome, OutcomeView, Platform, Stage,
    Step, StepView,
};
use crate::manager::semantics::{
    archive_format_of, backup_path, clean_up, common_next, desktop_file, dry_run_text, fail,
    first_real_step, first_step, installer_args, installer_kind_of, installer_path,
    is_command_outcome, language_manager_install, language_manager_name,
    next_step, path_in, path_separator, perform, poll_or_time_out, probe_from, ran_with_success,
    report, silent_flag, succeed, system_manager_count, system_manager_install,
    system_manager_name, texts,
};
use crate::text::{
    chars_of, contains, copy_words, extension_range, join, last_segment,
    range_matches_ignoring_case, replace_all, split_whitespace, to_decimal, words,
};
use vstd::prelude::*;
use vstd::string::*;

verus! {

/// Adds a copy of `s` to the end of `v`.
fn push_word(v: &mut Vec<String>, s: &str)
    ensures
        final(v).deep_view() == old(v).deep_view().push(s@),
{
    let ghost before = v.deep_view();
    v.push(String::from_str(s));
    assert(v.deep_view() =~= before.push(s@));
}

/// Adds copies of the strings of `more` to the end of `v`.
fn push_texts(v: &mut Vec<String>, more: &[&'static str])
    ensures
        final(v).deep_view() == old(v).deep_view() + texts(more@),
{
    let ghost before = v.deep_view();
    let mut i: usize = 0;
    assert(texts(more@).take(0) =~= Seq::<Seq<char>>::empty());
    assert(before + Seq::<Seq<char>>::empty() =~= before);
    while i < more.len()
        invariant
            i <= more.len(),
            v.deep_view() == before + texts(more@).take(i as int),
        decreases more.len() - i,
    {
        let ghost so_far = v.deep_view();
        push_word(v, more[i]);
        assert(so_far.push(more@[i as int]@) =~= before + texts(more@).take(i + 1));
        i = i + 1;
    }
    assert(texts(more@).take(more.len() as int) =~= texts(more@));
}

/// The step that asks for `effect` and continues at `then`.
fn perform_step(effect: Effect, then: Stage) -> (step: Step)
    ensures
        step@ == perform(effect@, then),
{
    Step::Perform { effect, then }
}

/// The step that ends with success.
fn succeed_step() -> (step: Step)
    ensures
        step@ == succeed(),
{
    Step::Finish { result: Ok(()) }
}

/// The step that ends with `error`.
fn fail_step(error: ExecutionError) -> (step: Step)
    ensures
        step@ == fail(error),
{
    Step::Finish { result: Err(error) }
}

/// The step that reports `text` and continues at `then`.
fn report_step(text: String, then: Stage) -> (step: Step)
    ensures
        step@ == perform(report(text@), then),
{
    Step::Perform { effect: Effect::Log { level: LogLevel::Info, text }, then }
}

/// The step that runs `argv` and continues at `then`.
fn spawn_step(argv: Vec<String>, then: Stage) -> (step: Step)
    ensures
        step@ == perform(EffectView::Spawn { argv: argv.deep_view() }, then),
{
    Step::Perform { effect: Effect::Spawn { argv }, then }
}

/// The step that runs `argv`, collects its output and continues at `then`.
fn capture_step(argv: Vec<String>, then: Stage) -> (step: Step)
    ensures
        step@ == perform(EffectView::Capture { argv: argv.deep_view() }, then),
{
    Step::Perform { effect: Effect::Capture { argv }, then }
}

/// The next step at a stage that every kind of instruction shares.
fn common_resume(stage: Stage, outcome: &Outcome) -> (step: Step)
    ensures
        step@ == common_next(stage, outcome@),
{
    match stage {
        Stage::Finished => succeed_step(),
        Stage::ExitIgnored => match outcome {
            Outcome::Exited { .. } => succeed_step(),
            Outcome::Failed => fail_step(ExecutionError::Io),
            _ => fail_step(ExecutionError::UnexpectedOutcome),
        },
        Stage::ExitChecked => match outcome {
            Outcome::Exited { success, code } => if *success {
                succeed_step()
            } else {
                fail_step(ExecutionError::ProcessExitNonZero { code: *code })
            },
            Outcome::Failed => fail_step(ExecutionError::ProcessExitNonZero { code: None }),
            _ => fail_step(ExecutionError::UnexpectedOutcome),
        },
        Stage::Completed => match outcome {
            Outcome::Done => succeed_step(),
            Outcome::Failed => fail_step(ExecutionError::Io),
            _ => fail_step(ExecutionError::UnexpectedOutcome),
        },
        Stage::Downloaded => match outcome {
            Outcome::Done => succeed_step(),
            Outcome::Failed => fail_step(ExecutionError::DownloadFailed),
            _ => fail_step(ExecutionError::UnexpectedOutcome),
        },
        _ => fail_step(ExecutionError::UnexpectedOutcome),
    }
}

/// Whether the outcome says that a command ran and ended with success.
fn outcome_is_success(outcome: &Outcome) -> (r: bool)
    ensures
        r == ran_with_success(outcome@),
{
    match outcome {
        Outcome::Exited { success, .. } => *success,
        Outcome::Captured { success, .. } => *success,
        _ => false,
    }
}

/// Whether the outcome is that of a command.
fn outcome_is_of_command(outcome: &Outcome) -> (r: bool)
    ensures
        r == is_command_outcome(outcome@),
{
    match outcome {
        Outcome::Exited { .. } => true,
        Outcome::Captured { .. } => true,
        Outcome::Failed => true,
        _ => false,
    }
}

/// The uniform interface of all instructions.
///
/// An instruction is executed in steps. `run` yields the first step; when it
/// asks for an effect, the host performs the effect and calls `resume` with
/// the stage that the step named and with what it observed, until a step
/// finishes the instruction.
pub trait AnyInstruction {
    /// The mathematical content of the instruction.
    spec fn model(&self) -> InstructionsView;

    /// The message that the instruction reports in a dry run.
    fn describe(&self, host: &Host) -> (text: String)
        ensures
            text@ == dry_run_text(self.model(), host@),
    ;

    /// The first step of a run that is not a dry run.
    fn start(&self, host: &Host) -> (step: Step)
        ensures
            step@ == first_real_step(self.model(), host@),
    ;

    /// The step that follows the outcome of the effect asked for at `stage`.
    fn resume(&self, host: &Host, stage: Stage, outcome: &Outcome) -> (step: Step)
        ensures
            step@ == next_step(self.model(), host@, stage, outcome@),
    ;

    /// The first step of the instruction. In a dry run it reports what the
    /// instruction would do and asks for nothing else.
    fn run(&self, dry_run: bool, host: &Host) -> (step: Step)
        ensures
            step@ == first_step(self.model(), dry_run, host@),
    {
        if dry_run {
            report_step(self.describe(host), Stage::Finished)
        } else {
            self.start(host)
        }
    }
}

/// Runs a command, given as one line that is split on whitespace, and fails
/// unless it ends with success.
#[derive(Debug, Clone, PartialEq, Eq, Hash)]
pub struct Run {
    /// The program and its arguments
    command: Vec<String>,
}

impl Run {
    /// The instruction that runs `command`.
    pub fn new(command: &str) -> (inst: Self)
        ensures
            inst.model() == (InstructionsView::Run { command: words(command@) }),
    {
        Self { command: split_whitespace(command) }
    }

    /// A copy of the instruction.
    pub fn duplicate(&self) -> (copy: Self)
        ensures
            copy.model() == self.model(),
    {
        Self { command: copy_words(&self.command) }
    }
}

impl AnyInstruction for Run {
    closed spec fn model(&self) -> InstructionsView {
        InstructionsView::Run { command: self.command.deep_view() }
    }

    fn describe(&self, host: &Host) -> (text: String) {
        let mut text = String::from_str("Dry run: would execute command: ");
        text.append(join(&self.command, " ").as_str());
        text
    }

    fn start(&self, host: &Host) -> (step: Step) {
        if self.command.len() == 0 {
            fail_step(ExecutionError::EmptyCommand)
        } else {
            spawn_step(copy_words(&self.command), Stage::ExitChecked)
        }
    }

    fn resume(&self, host: &Host, stage: Stage, outcome: &Outcome) -> (step: Step) {
        common_resume(stage, outcome)
    }
}

/// Downloads a file to a given path.
#[derive(Debug, Clone, PartialEq, Eq, Hash)]
pub struct DownloadTo {
    url: &'static str,
    path: &'static str,
}

impl DownloadTo {
    /// The instruction that downloads `url` to `path`.
    pub fn new(url: &'static str, path: &'static str) -> (inst: Self)
        ensures
            inst.model() == (InstructionsView::DownloadTo { url: url@, path: path@ }),
    {
        Self { url, path }
    }
}

impl AnyInstruction for DownloadTo {
    closed spec fn model(&self) -> InstructionsView {
        InstructionsView::DownloadTo { url: self.url@, path: self.path@ }
    }

    fn describe(&self, host: &Host) -> (text: String) {
        let mut text = String::from_str("Dry run: would download ");
        text.append(self.url);
        text.append(" to ");
        text.append(self.path);
        text
    }

    fn start(&self, host: &Host) -> (step: Step) {
        perform_step(
            Effect::Download { url: String::from_str(self.url), dest: String::from_str(self.path) },
            Stage::Downloaded,
        )
    }

    fn resume(&self, host: &Host, stage: Stage, outcome: &Outcome) -> (step: Step) {
        common_resume(stage, outcome)
    }
}

/// Runs a command and checks that its output holds an expected text. This
/// is how a package tells whether it is installed already.
#[derive(Debug, Clone, PartialEq, Eq, Hash)]
pub struct Assert {
    command: Vec<String>,
    expect: &'static str,
}

impl Assert {
    /// The instruction that runs `command` and looks for `expect` in what
    /// it prints.
    pub fn new(command: &str, expect: &'static str) -> (inst: Self)
        ensures
            inst.model() == (InstructionsView::Assert {
                command: words(command@),
                expect: expect@,
            }),
    {
        Self { command: split_whitespace(command), expect }
    }

    /// A copy of the instruction.
    pub fn duplicate(&self) -> (copy: Self)
        ensures
            copy.model() == self.model(),
    {
        Self { command: copy_words(&self.command), expect: self.expect }
    }
}

impl AnyInstruction for Assert {
    closed spec fn model(&self) -> InstructionsView {
        InstructionsView::Assert { command: self.command.deep_view(), expect: self.expect@ }
    }

    fn describe(&self, host: &Host) -> (text: String) {
        let mut text = String::from_str("Dry run: expect the result of: ");
        text.append(join(&self.command, " ").as_str());
        text.append(" to be ");
        text.append(self.expect);
        text
    }

    fn start(&self, host: &Host) -> (step: Step) {
        if self.command.len() == 0 {
            fail_step(ExecutionError::EmptyCommand)
        } else {
            capture_step(copy_words(&self.command), Stage::OutputChecked)
        }
    }

    fn resume(&self, host: &Host, stage: Stage, outcome: &Outcome) -> (step: Step) {
        match stage {
            Stage::OutputChecked => match outcome {
                Outcome::Captured { success, code, stdout } => if !*success {
                    fail_step(ExecutionError::ProcessExitNonZero { code: *code })
                } else if contains(stdout.as_str(), self.expect) {
                    succeed_step()
                } else {
                    fail_step(ExecutionError::AssertionMismatch)
                },
                Outcome::Failed => fail_step(ExecutionError::ProcessExitNonZero { code: None }),
                _ => fail_step(ExecutionError::UnexpectedOutcome),
            },
            _ => common_resume(stage, outcome),
        }
    }
}

/// The command made of two words.
fn argv2(a: &str, b: &str) -> (argv: Vec<String>)
    ensures
        argv.deep_view() == seq![a@, b@],
{
    let mut argv: Vec<String> = Vec::new();
    push_word(&mut argv, a);
    push_word(&mut argv, b);
    assert(argv.deep_view() =~= seq![a@, b@]);
    argv
}

/// The command made of three words.
fn argv3(a: &str, b: &str, c: &str) -> (argv: Vec<String>)
    ensures
        argv.deep_view() == seq![a@, b@, c@],
{
    let mut argv = argv2(a, b);
    push_word(&mut argv, c);
    assert(argv.deep_view() =~= seq![a@, b@, c@]);
    argv
}

/// The command made of four words.
fn argv4(a: &str, b: &str, c: &str, d: &str) -> (argv: Vec<String>)
    ensures
        argv.deep_view() == seq![a@, b@, c@, d@],
{
    let mut argv = argv3(a, b, c);
    push_word(&mut argv, d);
    assert(argv.deep_view() =~= seq![a@, b@, c@, d@]);
    argv
}

/// The command made of five words.
fn argv5(a: &str, b: &str, c: &str, d: &str, e: &str) -> (argv: Vec<String>)
    ensures
        argv.deep_view() == seq![a@, b@, c@, d@, e@],
{
    let mut argv = argv4(a, b, c, d);
    push_word(&mut argv, e);
    assert(argv.deep_view() =~= seq![a@, b@, c@, d@, e@]);
    argv
}

/// Classifies an archive by the extension of its path.
pub fn archive_format(path: &str) -> (format: Option<ArchiveFormat>)
    ensures
        format == archive_format_of(path@),
{
    let chars = chars_of(path);
    match extension_range(&chars) {
        None => None,
        Some((from, to)) => {
            if range_matches_ignoring_case(&chars, from, to, "zip") {
                Some(ArchiveFormat::Zip)
            } else if range_matches_ignoring_case(&chars, from, to, "gz")
                || range_matches_ignoring_case(&chars, from, to, "tgz") {
                Some(ArchiveFormat::Gzip)
            } else if range_matches_ignoring_case(&chars, from, to, "bz2")
                || range_matches_ignoring_case(&chars, from, to, "tbz2") {
                Some(ArchiveFormat::Bzip2)
            } else if range_matches_ignoring_case(&chars, from, to, "xz")
                || range_matches_ignoring_case(&chars, from, to, "txz") {
                Some(ArchiveFormat::Xz)
            } else {
                None
            }
        },
    }
}

/// Classifies a downloaded installer by the extension of its path.
pub fn installer_kind(path: &str) -> (kind: InstallerKind)
    ensures
        kind == installer_kind_of(path@),
{
    let chars = chars_of(path);
    match extension_range(&chars) {
        None => InstallerKind::Binary,
        Some((from, to)) => {
            if from == to {
                InstallerKind::Binary
            } else if range_matches_ignoring_case(&chars, from, to, "exe") {
                InstallerKind::Exe
            } else if range_matches_ignoring_case(&chars, from, to, "msi") {
                InstallerKind::Msi
            } else if range_matches_ignoring_case(&chars, from, to, "zip") {
                InstallerKind::Zip
            } else {
                InstallerKind::Other
            }
        },
    }
}

/// Extracts an archive into a directory, which is created if it is missing.
/// The tool is chosen by the archive's extension.
#[derive(Debug, Clone, PartialEq, Eq, Hash)]
pub struct ExtractArchive {
    archive_path: &'static str,
    destination: &'static str,
}

impl ExtractArchive {
    /// The instruction that extracts `archive_path` into `destination`.
    pub fn new(archive_path: &'static str, destination: &'static str) -> (inst: Self)
        ensures
            inst.model() == (InstructionsView::ExtractArchive {
                archive_path: archive_path@,
                destination: destination@,
            }),
    {
        Self { archive_path, destination }
    }
}

impl AnyInstruction for ExtractArchive {
    closed spec fn model(&self) -> InstructionsView {
        InstructionsView::ExtractArchive {
            archive_path: self.archive_path@,
            destination: self.destination@,
        }
    }

    fn describe(&self, host: &Host) -> (text: String) {
        let mut text = String::from_str("Dry run: would extract ");
        text.append(self.archive_path);
        text.append(" to ");
        text.append(self.destination);
        text
    }

    fn start(&self, host: &Host) -> (step: Step) {
        match archive_format(self.archive_path) {
            None => fail_step(ExecutionError::UnsupportedArchiveFormat),
            Some(_) => perform_step(
                Effect::CreateDirAll { path: String::from_str(self.destination) },
                Stage::DestinationReady,
            ),
        }
    }

    fn resume(&self, host: &Host, stage: Stage, outcome: &Outcome) -> (step: Step) {
        match stage {
            Stage::DestinationReady => match outcome {
                Outcome::Done => match archive_format(self.archive_path) {
                    Some(format) => {
                        let argv = match format {
                            ArchiveFormat::Zip => argv5(
                                "unzip",
                                "-o",
                                self.archive_path,
                                "-d",
                                self.destination,
                            ),
                            ArchiveFormat::Gzip => argv5(
                                "tar",
                                "-xzf",
                                self.archive_path,
                                "-C",
                                self.destination,
                            ),
                            ArchiveFormat::Bzip2 => argv5(
                                "tar",
                                "-xjf",
                                self.archive_path,
                                "-C",
                                self.destination,
                            ),
                            ArchiveFormat::Xz => argv5(
                                "tar",
                                "-xJf",
                                self.archive_path,
                                "-C",
                                self.destination,
                            ),
                        };
                        spawn_step(argv, Stage::ExitIgnored)
                    },
                    None => fail_step(ExecutionError::UnsupportedArchiveFormat),
                },
                Outcome::Failed => fail_step(ExecutionError::Io),
                _ => fail_step(ExecutionError::UnexpectedOutcome),
            },
            _ => common_resume(stage, outcome),
        }
    }
}

/// Sets an environment variable for future sessions of the user.
#[derive(Debug, Clone, PartialEq, Eq, Hash)]
pub struct AddEnvVar {
    name: &'static str,
    value: &'static str,
}

impl AddEnvVar {
    /// The instruction that sets `name` to `value`.
    pub fn new(name: &'static str, value: &'static str) -> (inst: Self)
        ensures
            inst.model() == (InstructionsView::AddEnvVar { name: name@, value: value@ }),
    {
        Self { name, value }
    }
}

impl AnyInstruction for AddEnvVar {
    closed spec fn model(&self) -> InstructionsView {
        InstructionsView::AddEnvVar { name: self.name@, value: self.value@ }
    }

    fn describe(&self, host: &Host) -> (text: String) {
        let mut text = String::from_str("Dry run: would set environment variable ");
        text.append(self.name);
        text.append("=");
        text.append(self.value);
        text
    }

    fn start(&self, host: &Host) -> (step: Step) {
        match host.platform {
            Platform::Windows => spawn_step(
                argv3("setx", self.name, self.value),
                Stage::ExitIgnored,
            ),
            Platform::Unix => match &host.home {
                None => fail_step(ExecutionError::MissingEnvironment),
                Some(home) => {
                    let mut path = home.clone();
                    path.append("/.bashrc");
                    let mut content = String::from_str("export ");
                    content.append(self.name);
                    content.append("=\"");
                    content.append(self.value);
                    content.append("\"\n");
                    perform_step(Effect::AppendFile { path, content }, Stage::Completed)
                },
            },
        }
    }

    fn resume(&self, host: &Host, stage: Stage, outcome: &Outcome) -> (step: Step) {
        common_resume(stage, outcome)
    }
}

/// Creates a shortcut on the user's desktop.
#[derive(Debug, Clone, PartialEq, Eq, Hash)]
pub struct CreateShortcut {
    name: &'static str,
    target: &'static str,
    icon: Option<&'static str>,
}

impl CreateShortcut {
    /// The instruction that creates the shortcut `name` to `target`.
    pub fn new(name: &'static str, target: &'static str, icon: Option<&'static str>) -> (inst:
        Self)
        ensures
            inst.model() == (InstructionsView::CreateShortcut {
                name: name@,
                target: target@,
                icon: match icon {
                    Some(i) => Some(i@),
                    None => None,
                },
            }),
    {
        Self { name, target, icon }
    }

    /// The file that holds the shortcut below `home`.
    fn desktop_file(&self, home: &String) -> (path: String)
        ensures
            path@ == desktop_file(home@, self.name@),
    {
        let mut path = home.clone();
        path.append("/Desktop/");
        path.append(self.name);
        path.append(".desktop");
        path
    }
}

impl AnyInstruction for CreateShortcut {
    closed spec fn model(&self) -> InstructionsView {
        InstructionsView::CreateShortcut {
            name: self.name@,
            target: self.target@,
            icon: match self.icon {
                Some(i) => Some(i@),
                None => None,
            },
        }
    }

    fn describe(&self, host: &Host) -> (text: String) {
        let mut text = String::from_str("Dry run: would create shortcut '");
        text.append(self.name);
        text.append("' pointing to '");
        text.append(self.target);
        text.append("'");
        match self.icon {
            Some(icon) => {
                text.append(" with icon '");
                text.append(icon);
                text.append("'");
            },
            None => {},
        }
        text
    }

    fn start(&self, host: &Host) -> (step: Step) {
        match host.platform {
            Platform::Windows => match &host.user_profile {
                None => fail_step(ExecutionError::MissingEnvironment),
                Some(profile) => {
                    let mut script = String::from_str(
                        "$WshShell = New-Object -comObject WScript.Shell; $Shortcut = $WshShell.CreateShortcut(\"",
                    );
                    script.append(profile.as_str());
                    script.append("\\Desktop\\");
                    script.append(self.name);
                    script.append(".lnk");
                    script.append("\"); $Shortcut.TargetPath = \"");
                    script.append(self.target);
                    script.append("\"; $Shortcut.Save()");
                    spawn_step(argv3("powershell", "-Command", script.as_str()), Stage::ExitIgnored)
                },
            },
            Platform::Unix => match &host.home {
                None => fail_step(ExecutionError::MissingEnvironment),
                Some(home) => {
                    let mut content = String::from_str(
                        "[Desktop Entry]\nVersion=1.0\nType=Application\nName=",
                    );
                    content.append(self.name);
                    content.append("\nExec=");
                    content.append(self.target);
                    content.append("\n");
                    match self.icon {
                        Some(icon) => {
                            content.append("Icon=");
                            content.append(icon);
                            content.append("\n");
                        },
                        None => {},
                    }
                    content.append("Terminal=false\n");
                    perform_step(
                        Effect::WriteFile { path: self.desktop_file(home), content },
                        Stage::ShortcutWritten,
                    )
                },
            },
        }
    }

    fn resume(&self, host: &Host, stage: Stage, outcome: &Outcome) -> (step: Step) {
        match stage {
            Stage::ShortcutWritten => match outcome {
                Outcome::Done => match &host.home {
                    Some(home) => spawn_step(
                        argv3("chmod", "+x", self.desktop_file(home).as_str()),
                        Stage::ExitIgnored,
                    ),
                    None => fail_step(ExecutionError::MissingEnvironment),
                },
                Outcome::Failed => fail_step(ExecutionError::Io),
                _ => fail_step(ExecutionError::UnexpectedOutcome),
            },
            _ => common_resume(stage, outcome),
        }
    }
}

/// Polls a command once a second until it ends with success or a timeout
/// elapses.
#[derive(Debug, Clone, PartialEq, Eq, Hash)]
pub struct WaitForCondition {
    check_command: Vec<String>,
    timeout_secs: u64,
}

impl WaitForCondition {
    /// The instruction that waits up to `timeout_secs` seconds for
    /// `check_command` to succeed.
    pub fn new(check_command: &str, timeout_secs: u64) -> (inst: Self)
        ensures
            inst.model() == (InstructionsView::WaitForCondition {
                check_command: words(check_command@),
                timeout_secs,
            }),
    {
        Self { check_command: split_whitespace(check_command), timeout_secs }
    }

    /// A copy of the instruction.
    pub fn duplicate(&self) -> (copy: Self)
        ensures
            copy.model() == self.model(),
    {
        Self { check_command: copy_words(&self.check_command), timeout_secs: self.timeout_secs }
    }

    /// Polls once more, unless the timeout has elapsed.
    fn poll(&self, started: u64, now: u64) -> (step: Step)
        ensures
            step@ == poll_or_time_out(
                self.check_command.deep_view(),
                self.timeout_secs,
                started,
                now,
            ),
    {
        let elapsed = if now >= started {
            now - started
        } else {
            0
        };
        if elapsed >= self.timeout_secs {
            fail_step(ExecutionError::ConditionTimeout)
        } else if self.check_command.len() == 0 {
            fail_step(ExecutionError::EmptyCommand)
        } else {
            spawn_step(copy_words(&self.check_command), Stage::Polled { started })
        }
    }
}

impl AnyInstruction for WaitForCondition {
    closed spec fn model(&self) -> InstructionsView {
        InstructionsView::WaitForCondition {
            check_command: self.check_command.deep_view(),
            timeout_secs: self.timeout_secs,
        }
    }

    fn describe(&self, host: &Host) -> (text: String) {
        let mut text = String::from_str("Dry run: would wait up to ");
        text.append(to_decimal(self.timeout_secs).as_str());
        text.append(" seconds for command '");
        text.append(join(&self.check_command, " ").as_str());
        text.append("' to succeed");
        text
    }

    fn start(&self, host: &Host) -> (step: Step) {
        perform_step(Effect::ReadMonotonicClock, Stage::TimerStarted)
    }

    fn resume(&self, host: &Host, stage: Stage, outcome: &Outcome) -> (step: Step) {
        match stage {
            Stage::TimerStarted => match outcome {
                Outcome::Time { secs } => self.poll(*secs, *secs),
                Outcome::Failed => fail_step(ExecutionError::Io),
                _ => fail_step(ExecutionError::UnexpectedOutcome),
            },
            Stage::Polled { started } => match outcome {
                Outcome::Exited { success, .. } => if *success {
                    succeed_step()
                } else {
                    perform_step(Effect::Sleep { secs: 1 }, Stage::Paused { started })
                },
                Outcome::Failed => perform_step(
                    Effect::Sleep { secs: 1 },
                    Stage::Paused { started },
                ),
                _ => fail_step(ExecutionError::UnexpectedOutcome),
            },
            Stage::Paused { started } => perform_step(
                Effect::ReadMonotonicClock,
                Stage::Clocked { started },
            ),
            Stage::Clocked { started } => match outcome {
                Outcome::Time { secs } => self.poll(started, *secs),
                Outcome::Failed => fail_step(ExecutionError::Io),
                _ => fail_step(ExecutionError::UnexpectedOutcome),
            },
            _ => common_resume(stage, outcome),
        }
    }
}

/// Clones a Git repository.
#[derive(Debug, Clone, PartialEq, Eq, Hash)]
pub struct CloneRepository {
    url: &'static str,
    path: Option<&'static str>,
}

impl CloneRepository {
    /// The instruction that clones `url`, into `path` where one is given.
    pub fn new(url: &'static str, path: Option<&'static str>) -> (inst: Self)
        ensures
            inst.model() == (InstructionsView::CloneRepository {
                url: url@,
                path: match path {
                    Some(p) => Some(p@),
                    None => None,
                },
            }),
    {
        Self { url, path }
    }
}

impl AnyInstruction for CloneRepository {
    closed spec fn model(&self) -> InstructionsView {
        InstructionsView::CloneRepository {
            url: self.url@,
            path: match self.path {
                Some(p) => Some(p@),
                None => None,
            },
        }
    }

    fn describe(&self, host: &Host) -> (text: String) {
        let mut text = String::from_str("Dry run: would clone repository '");
        text.append(self.url);
        text.append("' ");
        match self.path {
            Some(path) => {
                text.append("to '");
                text.append(path);
                text.append("'");
            },
            None => {
                text.append("to current directory");
            },
        }
        text
    }

    fn start(&self, host: &Host) -> (step: Step) {
        let argv = match self.path {
            Some(path) => argv4("git", "clone", self.url, path),
            None => argv3("git", "clone", self.url),
        };
        spawn_step(argv, Stage::ExitChecked)
    }

    fn resume(&self, host: &Host, stage: Stage, outcome: &Outcome) -> (step: Step) {
        common_resume(stage, outcome)
    }
}

/// Asks for administrator privileges ahead of the instructions that need
/// them.
#[derive(Debug, Clone, PartialEq, Eq, Hash)]
pub struct RequestSudo {
    reason: &'static str,
}

impl RequestSudo {
    /// The instruction that asks for privileges and says why.
    pub fn new(reason: &'static str) -> (inst: Self)
        ensures
            inst.model() == (InstructionsView::RequestSudo { reason: reason@ }),
    {
        Self { reason }
    }
}

impl AnyInstruction for RequestSudo {
    closed spec fn model(&self) -> InstructionsView {
        InstructionsView::RequestSudo { reason: self.reason@ }
    }

    fn describe(&self, host: &Host) -> (text: String) {
        let mut text = String::from_str("Dry run: would request administrator privileges: ");
        text.append(self.reason);
        text
    }

    fn start(&self, host: &Host) -> (step: Step) {
        let mut text = String::from_str("Administrator privileges required: ");
        text.append(self.reason);
        report_step(text, Stage::SudoAnnounced)
    }

    fn resume(&self, host: &Host, stage: Stage, outcome: &Outcome) -> (step: Step) {
        match stage {
            Stage::SudoAnnounced => match host.platform {
                Platform::Unix => spawn_step(argv2("sudo", "-v"), Stage::ExitIgnored),
                Platform::Windows => report_step(
                    String::from_str(
                        "Please ensure you are running as Administrator or have UAC enabled",
                    ),
                    Stage::Finished,
                ),
            },
            _ => common_resume(stage, outcome),
        }
    }
}

/// Restarts a system service.
#[derive(Debug, Clone, PartialEq, Eq, Hash)]
pub struct RestartService {
    service_name: &'static str,
}

impl RestartService {
    /// The instruction that restarts `service_name`.
    pub fn new(service_name: &'static str) -> (inst: Self)
        ensures
            inst.model() == (InstructionsView::RestartService { service_name: service_name@ }),
    {
        Self { service_name }
    }
}

impl AnyInstruction for RestartService {
    closed spec fn model(&self) -> InstructionsView {
        InstructionsView::RestartService { service_name: self.service_name@ }
    }

    fn describe(&self, host: &Host) -> (text: String) {
        let mut text = String::from_str("Dry run: would restart service '");
        text.append(self.service_name);
        text.append("'");
        text
    }

    fn start(&self, host: &Host) -> (step: Step) {
        match host.platform {
            Platform::Windows => spawn_step(
                argv3("sc", "stop", self.service_name),
                Stage::ServiceStopped,
            ),
            Platform::Unix => capture_step(argv2("systemctl", "--version"), Stage::SystemdProbed),
        }
    }

    fn resume(&self, host: &Host, stage: Stage, outcome: &Outcome) -> (step: Step) {
        match stage {
            Stage::ServiceStopped => match outcome {
                Outcome::Exited { .. } => perform_step(
                    Effect::Sleep { secs: 2 },
                    Stage::ServicePaused,
                ),
                Outcome::Failed => fail_step(ExecutionError::Io),
                _ => fail_step(ExecutionError::UnexpectedOutcome),
            },
            Stage::ServicePaused => spawn_step(
                argv3("sc", "start", self.service_name),
                Stage::ExitIgnored,
            ),
            Stage::SystemdProbed => if !outcome_is_of_command(outcome) {
                fail_step(ExecutionError::UnexpectedOutcome)
            } else if outcome_is_success(outcome) {
                spawn_step(argv3("systemctl", "restart", self.service_name), Stage::ExitIgnored)
            } else {
                capture_step(argv2("service", "--version"), Stage::SysvProbed)
            },
            Stage::SysvProbed => if !outcome_is_of_command(outcome) {
                fail_step(ExecutionError::UnexpectedOutcome)
            } else if outcome_is_success(outcome) {
                spawn_step(argv3("service", self.service_name, "restart"), Stage::ExitIgnored)
            } else {
                fail_step(ExecutionError::NoServiceManagerAvailable)
            },
            _ => common_resume(stage, outcome),
        }
    }
}

/// Copies a file to a backup that is named after the time of the copy.
/// A file that does not exist needs no backup.
#[derive(Debug, Clone, PartialEq, Eq, Hash)]
pub struct BackupFile {
    path: &'static str,
}

impl BackupFile {
    /// The instruction that backs up `path`.
    pub fn new(path: &'static str) -> (inst: Self)
        ensures
            inst.model() == (InstructionsView::BackupFile { path: path@ }),
    {
        Self { path }
    }

    /// The name of the backup made at `stamp`.
    fn backup_path(&self, stamp: u64) -> (path: String)
        ensures
            path@ == backup_path(self.path@, stamp),
    {
        let mut path = String::from_str(self.path);
        path.append(".backup.");
        path.append(to_decimal(stamp).as_str());
        path
    }
}

impl AnyInstruction for BackupFile {
    closed spec fn model(&self) -> InstructionsView {
        InstructionsView::BackupFile { path: self.path@ }
    }

    fn describe(&self, host: &Host) -> (text: String) {
        let mut text = String::from_str("Dry run: would backup file '");
        text.append(self.path);
        text.append("'");
        text
    }

    fn start(&self, host: &Host) -> (step: Step) {
        perform_step(
            Effect::PathExists { path: String::from_str(self.path) },
            Stage::BackupProbed,
        )
    }

    fn resume(&self, host: &Host, stage: Stage, outcome: &Outcome) -> (step: Step) {
        match stage {
            Stage::BackupProbed => match outcome {
                Outcome::Exists { exists } => if *exists {
                    perform_step(Effect::ReadWallClock, Stage::BackupTimed)
                } else {
                    succeed_step()
                },
                _ => fail_step(ExecutionError::UnexpectedOutcome),
            },
            Stage::BackupTimed => match outcome {
                Outcome::Time { secs } => perform_step(
                    Effect::CopyFile {
                        from: String::from_str(self.path),
                        to: self.backup_path(*secs),
                    },
                    Stage::BackupCopied { stamp: *secs },
                ),
                Outcome::Failed => fail_step(ExecutionError::Io),
                _ => fail_step(ExecutionError::UnexpectedOutcome),
            },
            Stage::BackupCopied { stamp } => match outcome {
                Outcome::Done => {
                    let mut text = String::from_str("Backed up ");
                    text.append(self.path);
                    text.append(" to ");
                    text.append(self.backup_path(stamp).as_str());
                    report_step(text, Stage::Finished)
                },
                Outcome::Failed => fail_step(ExecutionError::Io),
                _ => fail_step(ExecutionError::UnexpectedOutcome),
            },
            _ => common_resume(stage, outcome),
        }
    }
}

/// Replaces every occurrence of a text in a file.
#[derive(Debug, Clone, PartialEq, Eq, Hash)]
pub struct EditFile {
    path: &'static str,
    find: &'static str,
    replace: &'static str,
}

impl EditFile {
    /// The instruction that replaces `find` by `replace` throughout `path`.
    pub fn new(path: &'static str, find: &'static str, replace: &'static str) -> (inst: Self)
        ensures
            inst.model() == (InstructionsView::EditFile {
                path: path@,
                find: find@,
                replace: replace@,
            }),
    {
        Self { path, find, replace }
    }
}

impl AnyInstruction for EditFile {
    closed spec fn model(&self) -> InstructionsView {
        InstructionsView::EditFile { path: self.path@, find: self.find@, replace: self.replace@ }
    }

    fn describe(&self, host: &Host) -> (text: String) {
        let mut text = String::from_str("Dry run: would edit file '");
        text.append(self.path);
        text.append("' replacing '");
        text.append(self.find);
        text.append("' with '");
        text.append(self.replace);
        text.append("'");
        text
    }

    fn start(&self, host: &Host) -> (step: Step) {
        perform_step(Effect::ReadFile { path: String::from_str(self.path) }, Stage::FileRead)
    }

    fn resume(&self, host: &Host, stage: Stage, outcome: &Outcome) -> (step: Step) {
        match stage {
            Stage::FileRead => match outcome {
                Outcome::Content { text } => perform_step(
                    Effect::WriteFile {
                        path: String::from_str(self.path),
                        content: replace_all(text.as_str(), self.find, self.replace),
                    },
                    Stage::Completed,
                ),
                Outcome::Failed => fail_step(ExecutionError::Io),
                _ => fail_step(ExecutionError::UnexpectedOutcome),
            },
            _ => common_resume(stage, outcome),
        }
    }
}

/// The number of system package managers that are tried on `platform`.
fn system_manager_total(platform: Platform) -> (count: usize)
    ensures
        count == system_manager_count(platform),
{
    match platform {
        Platform::Windows => 2,
        Platform::Unix => 6,
    }
}

/// The name of system package manager number `index` on `platform`.
fn system_manager(platform: Platform, index: usize) -> (name: &'static str)
    ensures
        name@ == system_manager_name(platform, index as nat),
{
    match platform {
        Platform::Windows => if index == 0 {
            "choco"
        } else {
            "winget"
        },
        Platform::Unix => if index == 0 {
            "apt"
        } else if index == 1 {
            "yum"
        } else if index == 2 {
            "dnf"
        } else if index == 3 {
            "pacman"
        } else if index == 4 {
            "zypper"
        } else {
            "brew"
        },
    }
}

/// Installs an application with the package manager of the system: the
/// available managers are tried in a fixed order until one succeeds.
#[derive(Debug, Clone, PartialEq, Eq, Hash)]
pub struct InstallApplication {
    /// Name of the package to install
    package_name: &'static str,
}

impl InstallApplication {
    /// The instruction that installs `package_name`.
    pub fn new(package_name: &'static str) -> (inst: Self)
        ensures
            inst.model() == (InstructionsView::InstallApplication {
                package_name: package_name@,
            }),
    {
        Self { package_name }
    }

    /// Probes manager number `index`, or gives up where none is left.
    fn probe(&self, platform: Platform, index: usize) -> (step: Step)
        ensures
            step@ == probe_from(self.model(), platform, index as nat),
    {
        if index < system_manager_total(platform) {
            let argv = match platform {
                Platform::Windows => argv2(system_manager(platform, index), "--version"),
                Platform::Unix => argv2("which", system_manager(platform, index)),
            };
            capture_step(argv, Stage::ManagerProbed { index })
        } else {
            fail_step(ExecutionError::NoPackageManagerAvailable)
        }
    }

    /// The command by which manager number `index` installs the package.
    fn install(&self, platform: Platform, index: usize) -> (argv: Vec<String>)
        ensures
            argv.deep_view() == system_manager_install(platform, index as nat, self.package_name@),
    {
        match platform {
            Platform::Windows => if index == 0 {
                argv4("choco", "install", self.package_name, "-y")
            } else {
                argv5("winget", "install", "--id", self.package_name, "-e")
            },
            Platform::Unix => if index == 3 {
                argv4("pacman", "-S", "--noconfirm", self.package_name)
            } else if index == 5 {
                argv3("brew", "install", self.package_name)
            } else {
                argv4(system_manager(platform, index), "install", "-y", self.package_name)
            },
        }
    }
}

impl AnyInstruction for InstallApplication {
    closed spec fn model(&self) -> InstructionsView {
        InstructionsView::InstallApplication { package_name: self.package_name@ }
    }

    fn describe(&self, host: &Host) -> (text: String) {
        let mut text = String::from_str("Dry run: would install package '");
        text.append(self.package_name);
        text.append("'");
        text
    }

    fn start(&self, host: &Host) -> (step: Step) {
        self.probe(host.platform, 0)
    }

    fn resume(&self, host: &Host, stage: Stage, outcome: &Outcome) -> (step: Step) {
        let platform = host.platform;
        match stage {
            Stage::ManagerProbed { index } => if index >= system_manager_total(platform) {
                fail_step(ExecutionError::UnexpectedOutcome)
            } else {
                match outcome {
                    Outcome::Captured { success, .. } => if *success {
                        spawn_step(self.install(platform, index), Stage::ManagerTried { index })
                    } else {
                        self.probe(platform, index + 1)
                    },
                    Outcome::Failed => self.probe(platform, index + 1),
                    _ => fail_step(ExecutionError::UnexpectedOutcome),
                }
            },
            Stage::ManagerTried { index } => if index >= system_manager_total(platform) {
                fail_step(ExecutionError::UnexpectedOutcome)
            } else {
                match outcome {
                    Outcome::Exited { success, .. } => if *success {
                        succeed_step()
                    } else {
                        self.probe(platform, index + 1)
                    },
                    Outcome::Failed => self.probe(platform, index + 1),
                    _ => fail_step(ExecutionError::UnexpectedOutcome),
                }
            },
            _ => common_resume(stage, outcome),
        }
    }
}

/// The name of language package manager number `index`.
fn language_manager(index: usize) -> (name: &'static str)
    ensures
        name@ == language_manager_name(index as nat),
{
    if index == 0 {
        "npm"
    } else if index == 1 {
        "yarn"
    } else if index == 2 {
        "bun"
    } else if index == 3 {
        "pnpm"
    } else if index == 4 {
        "cargo"
    } else if index == 5 {
        "pipx"
    } else if index == 6 {
        "pip"
    } else if index == 7 {
        "gem"
    } else {
        "go"
    }
}

/// Installs a package with the package manager of a programming language:
/// the available managers are tried in a fixed order until one succeeds.
#[derive(Debug, Clone, PartialEq, Eq, Hash)]
pub struct InstallPackage {
    /// Name of the package to install
    package_name: &'static str,
}

impl InstallPackage {
    /// The instruction that installs `package_name`.
    pub fn new(package_name: &'static str) -> (inst: Self)
        ensures
            inst.model() == (InstructionsView::InstallPackage { package_name: package_name@ }),
    {
        Self { package_name }
    }

    /// Probes manager number `index`, or gives up where none is left.
    fn probe(&self, platform: Platform, index: usize) -> (step: Step)
        ensures
            step@ == probe_from(self.model(), platform, index as nat),
    {
        if index < 9 {
            let argv = if index == 8 {
                argv2("go", "version")
            } else {
                argv2(language_manager(index), "--version")
            };
            capture_step(argv, Stage::ManagerProbed { index })
        } else {
            fail_step(ExecutionError::NoPackageManagerAvailable)
        }
    }

    /// The command by which manager number `index` installs the package.
    fn install(&self, index: usize) -> (argv: Vec<String>)
        ensures
            argv.deep_view() == language_manager_install(index as nat, self.package_name@),
    {
        if index == 0 {
            argv4("npm", "install", "-g", self.package_name)
        } else if index == 1 {
            argv4("yarn", "global", "add", self.package_name)
        } else if index == 2 {
            argv4("bun", "add", "-g", self.package_name)
        } else if index == 3 {
            argv4("pnpm", "add", "-g", self.package_name)
        } else if index == 4 {
            argv3("cargo", "install", self.package_name)
        } else if index == 5 {
            argv3("pipx", "install", self.package_name)
        } else if index == 6 {
            argv4("pip", "install", "--user", self.package_name)
        } else if index == 7 {
            argv3("gem", "install", self.package_name)
        } else {
            let mut latest = String::from_str(self.package_name);
            latest.append("@latest");
            argv3("go", "install", latest.as_str())
        }
    }
}

impl AnyInstruction for InstallPackage {
    closed spec fn model(&self) -> InstructionsView {
        InstructionsView::InstallPackage { package_name: self.package_name@ }
    }

    fn describe(&self, host: &Host) -> (text: String) {
        let mut text = String::from_str("Dry run: would install package '");
        text.append(self.package_name);
        text.append("' using language package manager");
        text
    }

    fn start(&self, host: &Host) -> (step: Step) {
        self.probe(host.platform, 0)
    }

    fn resume(&self, host: &Host, stage: Stage, outcome: &Outcome) -> (step: Step) {
        let platform = host.platform;
        match stage {
            Stage::ManagerProbed { index } => if index >= 9 {
                fail_step(ExecutionError::UnexpectedOutcome)
            } else {
                match outcome {
                    Outcome::Captured { success, .. } => if *success {
                        spawn_step(self.install(index), Stage::ManagerTried { index })
                    } else {
                        self.probe(platform, index + 1)
                    },
                    Outcome::Failed => self.probe(platform, index + 1),
                    _ => fail_step(ExecutionError::UnexpectedOutcome),
                }
            },
            Stage::ManagerTried { index } => if index >= 9 {
                fail_step(ExecutionError::UnexpectedOutcome)
            } else {
                match outcome {
                    Outcome::Exited { success, .. } => if *success {
                        succeed_step()
                    } else {
                        self.probe(platform, index + 1)
                    },
                    Outcome::Failed => self.probe(platform, index + 1),
                    _ => fail_step(ExecutionError::UnexpectedOutcome),
                }
            },
            _ => common_resume(stage, outcome),
        }
    }
}

/// The path of the file `name` in the directory `dir`.
pub fn join_path(dir: &str, name: &str, platform: Platform) -> (path: String)
    ensures
        path@ == path_in(dir@, name@, platform),
{
    let chars = chars_of(dir);
    let separator = match platform {
        Platform::Windows => '\\',
        Platform::Unix => '/',
    };
    let mut path = String::from_str(dir);
    if chars.len() > 0 && chars[chars.len() - 1] != separator {
        proof {
            reveal_strlit("\\");
            reveal_strlit("/");
        }
        let text = match platform {
            Platform::Windows => "\\",
            Platform::Unix => "/",
        };
        assert(text@ =~= seq![path_separator(platform)]);
        path.append(text);
    }
    path.append(name);
    path
}

/// Silent-installation flag number `index`.
fn silent_flag_text(index: usize) -> (flag: &'static str)
    ensures
        flag@ == silent_flag(index as nat),
{
    if index == 0 {
        "/SILENT"
    } else if index == 1 {
        "/VERYSILENT"
    } else if index == 2 {
        "/quiet"
    } else if index == 3 {
        "/Q"
    } else if index == 4 {
        "/s"
    } else if index == 5 {
        "--silent"
    } else {
        "-s"
    }
}

/// Ends the execution of a downloaded installer with `result`, after
/// deleting the file `dest` if it is there.
fn clean_up_step(dest: String, result: Result<(), ExecutionError>) -> (step: Step)
    ensures
        step@ == clean_up(dest@, result),
{
    perform_step(Effect::PathExists { path: dest }, Stage::CleanupProbed { result })
}

/// Downloads an installer and executes it.
///
/// The file is kept in the directory for temporary files while it runs and
/// is deleted afterwards, however the installation went. How it is executed
/// depends on its extension: `.exe` and `.msi` only on Windows, a file
/// without extension only on Unix, and nothing else at all.
#[derive(Debug, Clone, PartialEq, Eq, Hash)]
pub struct DownloadAndExec {
    /// URL to download the installer from
    url: &'static str,
    /// Whether to attempt silent installation
    silent: bool,
    /// Custom arguments to pass to the installer
    custom_args: Option<&'static [&'static str]>,
}

impl DownloadAndExec {
    /// The instruction that downloads `url` and executes what it fetched,
    /// with `custom_args` where they are given, and without asking
    /// questions where `silent` is set.
    pub fn new(url: &'static str, silent: bool, custom_args: Option<&'static [&'static str]>) -> (inst:
        Self)
        ensures
            inst.model() == (InstructionsView::DownloadAndExec {
                url: url@,
                silent,
                custom_args: match custom_args {
                    Some(args) => Some(texts(args@)),
                    None => None,
                },
            }),
    {
        Self { url, silent, custom_args }
    }

    /// Where the installer is kept while it runs.
    fn dest(&self, host: &Host) -> (path: String)
        ensures
            path@ == installer_path(self.url@, host@),
    {
        join_path(host.temp_dir.as_str(), last_segment(self.url), host.platform)
    }

    /// Adds the arguments that the installer is started with to `argv`.
    fn push_args(&self, argv: &mut Vec<String>, kind: InstallerKind)
        ensures
            final(argv).deep_view() == old(argv).deep_view() + installer_args(
                kind,
                self.silent,
                match self.custom_args {
                    Some(args) => Some(texts(args@)),
                    None => None,
                },
            ),
    {
        let ghost before = argv.deep_view();
        match self.custom_args {
            Some(args) => {
                push_texts(argv, args);
            },
            None => {
                if self.silent && kind == InstallerKind::Exe {
                    push_word(argv, "/S");
                    assert(before.push("/S"@) =~= before + seq!["/S"@]);
                } else if self.silent && kind == InstallerKind::Msi {
                    push_word(argv, "/quiet");
                    push_word(argv, "/qn");
                    push_word(argv, "/norestart");
                    assert(before.push("/quiet"@).push("/qn"@).push("/norestart"@) =~= before
                        + seq!["/quiet"@, "/qn"@, "/norestart"@]);
                } else {
                    assert(before =~= before + Seq::<Seq<char>>::empty());
                }
            },
        }
    }

    /// The command that starts the installer `dest` directly.
    fn direct_argv(&self, dest: &String, kind: InstallerKind) -> (argv: Vec<String>)
        ensures
            argv.deep_view() == seq![dest@] + installer_args(
                kind,
                self.silent,
                match self.custom_args {
                    Some(args) => Some(texts(args@)),
                    None => None,
                },
            ),
    {
        let mut argv: Vec<String> = Vec::new();
        push_word(&mut argv, dest.as_str());
        assert(argv.deep_view() =~= seq![dest@]);
        self.push_args(&mut argv, kind);
        argv
    }
}

impl AnyInstruction for DownloadAndExec {
    closed spec fn model(&self) -> InstructionsView {
        InstructionsView::DownloadAndExec {
            url: self.url@,
            silent: self.silent,
            custom_args: match self.custom_args {
                Some(args) => Some(texts(args@)),
                None => None,
            },
        }
    }

    fn describe(&self, host: &Host) -> (text: String) {
        let mut text = String::from_str("Dry run: would download ");
        text.append(self.url);
        text.append(" to ");
        text.append(self.dest(host).as_str());
        text
    }

    fn start(&self, host: &Host) -> (step: Step) {
        perform_step(
            Effect::Download { url: String::from_str(self.url), dest: self.dest(host) },
            Stage::InstallerFetched,
        )
    }

    fn resume(&self, host: &Host, stage: Stage, outcome: &Outcome) -> (step: Step) {
        let dest = self.dest(host);
        match stage {
            Stage::InstallerFetched => match outcome {
                Outcome::Done => {
                    let kind = installer_kind(last_segment(self.url));
                    match kind {
                        InstallerKind::Exe => match host.platform {
                            Platform::Windows => spawn_step(
                                self.direct_argv(&dest, kind),
                                Stage::InstallerRan,
                            ),
                            Platform::Unix => clean_up_step(
                                dest,
                                Err(ExecutionError::PlatformMismatch),
                            ),
                        },
                        InstallerKind::Msi => match host.platform {
                            Platform::Windows => {
                                let mut argv = argv3("msiexec", "/i", dest.as_str());
                                self.push_args(&mut argv, kind);
                                spawn_step(argv, Stage::MsiRan)
                            },
                            Platform::Unix => clean_up_step(
                                dest,
                                Err(ExecutionError::PlatformMismatch),
                            ),
                        },
                        InstallerKind::Binary => match host.platform {
                            Platform::Unix => spawn_step(
                                self.direct_argv(&dest, kind),
                                Stage::BinaryRan,
                            ),
                            Platform::Windows => clean_up_step(
                                dest,
                                Err(ExecutionError::PlatformMismatch),
                            ),
                        },
                        InstallerKind::Zip => clean_up_step(
                            dest,
                            Err(ExecutionError::UnsupportedFileType),
                        ),
                        InstallerKind::Other => clean_up_step(
                            dest,
                            Err(ExecutionError::UnsupportedFileType),
                        ),
                    }
                },
                Outcome::Failed => clean_up_step(dest, Err(ExecutionError::DownloadFailed)),
                _ => fail_step(ExecutionError::UnexpectedOutcome),
            },
            Stage::InstallerRan => match outcome {
                Outcome::Exited { success, .. } => if !*success && self.silent
                    && self.custom_args.is_none() {
                    spawn_step(
                        argv2(dest.as_str(), silent_flag_text(0)),
                        Stage::SilentRetried { index: 0 },
                    )
                } else {
                    clean_up_step(dest, Ok(()))
                },
                Outcome::Failed => clean_up_step(dest, Err(ExecutionError::Io)),
                _ => fail_step(ExecutionError::UnexpectedOutcome),
            },
            Stage::SilentRetried { index } => if !outcome_is_of_command(outcome) || index >= 7 {
                fail_step(ExecutionError::UnexpectedOutcome)
            } else if outcome_is_success(outcome) || index + 1 >= 7 {
                clean_up_step(dest, Ok(()))
            } else {
                spawn_step(
                    argv2(dest.as_str(), silent_flag_text(index + 1)),
                    Stage::SilentRetried { index: index + 1 },
                )
            },
            Stage::MsiRan => match outcome {
                Outcome::Exited { .. } => clean_up_step(dest, Ok(())),
                Outcome::Failed => clean_up_step(dest, Err(ExecutionError::Io)),
                _ => fail_step(ExecutionError::UnexpectedOutcome),
            },
            Stage::BinaryRan => match outcome {
                Outcome::Exited { success, code } => if *success {
                    clean_up_step(dest, Ok(()))
                } else {
                    clean_up_step(dest, Err(ExecutionError::ProcessExitNonZero { code: *code }))
                },
                Outcome::Failed => clean_up_step(
                    dest,
                    Err(ExecutionError::ProcessExitNonZero { code: None }),
                ),
                _ => fail_step(ExecutionError::UnexpectedOutcome),
            },
            Stage::CleanupProbed { result } => match outcome {
                Outcome::Exists { exists } => if *exists {
                    perform_step(Effect::RemoveFile { path: dest }, Stage::CleanupDone { result })
                } else {
                    Step::Finish { result }
                },
                _ => fail_step(ExecutionError::UnexpectedOutcome),
            },
            Stage::CleanupDone { result } => match outcome {
                Outcome::Done => Step::Finish { result },
                Outcome::Failed => if result.is_ok() {
                    fail_step(ExecutionError::Io)
                } else {
                    Step::Finish { result }
                },
                _ => fail_step(ExecutionError::UnexpectedOutcome),
            },
            _ => common_resume(stage, outcome),
        }
    }
}

/// An instruction of any kind.
#[derive(Debug, Clone, PartialEq, Eq, Hash)]
pub enum Instructions {
    /// Download and execute an installer
    DownloadAndExec(DownloadAndExec),
    /// Run a shell command
    Run(Run),
    /// Download a file to a specific location
    DownloadTo(DownloadTo),
    /// Check that a command prints an expected text
    Assert(Assert),
    /// Extract an archive file
    ExtractArchive(ExtractArchive),
    /// Add an environment variable
    AddEnvVar(AddEnvVar),
    /// Create a desktop shortcut
    CreateShortcut(CreateShortcut),
    /// Wait for a condition to become true
    WaitForCondition(WaitForCondition),
    /// Install an application using the system package manager
    InstallApplication(InstallApplication),
    /// Install a package using a language package manager
    InstallPackage(InstallPackage),
    /// Clone a Git repository
    CloneRepository(CloneRepository),
    /// Request administrator privileges
    RequestSudo(RequestSudo),
    /// Restart a system service
    RestartService(RestartService),
    /// Create a backup of a file
    BackupFile(BackupFile),
    /// Edit a file using find and replace
    EditFile(EditFile),
}

impl View for Instructions {
    type V = InstructionsView;

    open spec fn view(&self) -> InstructionsView {
        match self {
            Instructions::DownloadAndExec(inst) => inst.model(),
            Instructions::Run(inst) => inst.model(),
            Instructions::DownloadTo(inst) => inst.model(),
            Instructions::Assert(inst) => inst.model(),
            Instructions::ExtractArchive(inst) => inst.model(),
            Instructions::AddEnvVar(inst) => inst.model(),
            Instructions::CreateShortcut(inst) => inst.model(),
            Instructions::WaitForCondition(inst) => inst.model(),
            Instructions::InstallApplication(inst) => inst.model(),
            Instructions::InstallPackage(inst) => inst.model(),
            Instructions::CloneRepository(inst) => inst.model(),
            Instructions::RequestSudo(inst) => inst.model(),
            Instructions::RestartService(inst) => inst.model(),
            Instructions::BackupFile(inst) => inst.model(),
            Instructions::EditFile(inst) => inst.model(),
        }
    }
}

impl Instructions {
    /// The instruction that a builder has settled on.
    fn from_instruction(instruction: Instruction) -> (inst: Self)
        requires
            instruction.chosen() is Some,
        ensures
            Some(inst@) == instruction.chosen(),
    {
        match instruction.instruction {
            Some(inst) => inst,
            None => {
                proof {
                    assert(false);
                }
                Instructions::Run(Run { command: Vec::new() })
            },
        }
    }

    /// Whether the instruction is a check of a command's output, the only
    /// kind that may serve as a prerequisite check.
    pub fn is_assert(&self) -> (r: bool)
        ensures
            r == (self@ is Assert),
    {
        match self {
            Instructions::Assert(_) => true,
            _ => false,
        }
    }

    /// A copy of the instruction.
    pub fn duplicate(&self) -> (copy: Self)
        ensures
            copy@ == self@,
    {
        match self {
            Instructions::DownloadAndExec(inst) => Instructions::DownloadAndExec(
                DownloadAndExec {
                    url: inst.url,
                    silent: inst.silent,
                    custom_args: inst.custom_args,
                },
            ),
            Instructions::Run(inst) => Instructions::Run(inst.duplicate()),
            Instructions::DownloadTo(inst) => Instructions::DownloadTo(
                DownloadTo { url: inst.url, path: inst.path },
            ),
            Instructions::Assert(inst) => Instructions::Assert(inst.duplicate()),
            Instructions::ExtractArchive(inst) => Instructions::ExtractArchive(
                ExtractArchive { archive_path: inst.archive_path, destination: inst.destination },
            ),
            Instructions::AddEnvVar(inst) => Instructions::AddEnvVar(
                AddEnvVar { name: inst.name, value: inst.value },
            ),
            Instructions::CreateShortcut(inst) => Instructions::CreateShortcut(
                CreateShortcut { name: inst.name, target: inst.target, icon: inst.icon },
            ),
            Instructions::WaitForCondition(inst) => Instructions::WaitForCondition(
                inst.duplicate(),
            ),
            Instructions::InstallApplication(inst) => Instructions::InstallApplication(
                InstallApplication { package_name: inst.package_name },
            ),
            Instructions::InstallPackage(inst) => Instructions::InstallPackage(
                InstallPackage { package_name: inst.package_name },
            ),
            Instructions::CloneRepository(inst) => Instructions::CloneRepository(
                CloneRepository { url: inst.url, path: inst.path },
            ),
            Instructions::RequestSudo(inst) => Instructions::RequestSudo(
                RequestSudo { reason: inst.reason },
            ),
            Instructions::RestartService(inst) => Instructions::RestartService(
                RestartService { service_name: inst.service_name },
            ),
            Instructions::BackupFile(inst) => Instructions::BackupFile(
                BackupFile { path: inst.path },
            ),
            Instructions::EditFile(inst) => Instructions::EditFile(
                EditFile { path: inst.path, find: inst.find, replace: inst.replace },
            ),
        }
    }
}

impl AnyInstruction for Instructions {
    open spec fn model(&self) -> InstructionsView {
        self@
    }

    fn describe(&self, host: &Host) -> (text: String) {
        match self {
            Instructions::DownloadAndExec(inst) => inst.describe(host),
            Instructions::Run(inst) => inst.describe(host),
            Instructions::DownloadTo(inst) => inst.describe(host),
            Instructions::Assert(inst) => inst.describe(host),
            Instructions::ExtractArchive(inst) => inst.describe(host),
            Instructions::AddEnvVar(inst) => inst.describe(host),
            Instructions::CreateShortcut(inst) => inst.describe(host),
            Instructions::WaitForCondition(inst) => inst.describe(host),
            Instructions::InstallApplication(inst) => inst.describe(host),
            Instructions::InstallPackage(inst) => inst.describe(host),
            Instructions::CloneRepository(inst) => inst.describe(host),
            Instructions::RequestSudo(inst) => inst.describe(host),
            Instructions::RestartService(inst) => inst.describe(host),
            Instructions::BackupFile(inst) => inst.describe(host),
            Instructions::EditFile(inst) => inst.describe(host),
        }
    }

    fn start(&self, host: &Host) -> (step: Step) {
        match self {
            Instructions::DownloadAndExec(inst) => inst.start(host),
            Instructions::Run(inst) => inst.start(host),
            Instructions::DownloadTo(inst) => inst.start(host),
            Instructions::Assert(inst) => inst.start(host),
            Instructions::ExtractArchive(inst) => inst.start(host),
            Instructions::AddEnvVar(inst) => inst.start(host),
            Instructions::CreateShortcut(inst) => inst.start(host),
            Instructions::WaitForCondition(inst) => inst.start(host),
            Instructions::InstallApplication(inst) => inst.start(host),
            Instructions::InstallPackage(inst) => inst.start(host),
            Instructions::CloneRepository(inst) => inst.start(host),
            Instructions::RequestSudo(inst) => inst.start(host),
            Instructions::RestartService(inst) => inst.start(host),
            Instructions::BackupFile(inst) => inst.start(host),
            Instructions::EditFile(inst) => inst.start(host),
        }
    }

    fn resume(&self, host: &Host, stage: Stage, outcome: &Outcome) -> (step: Step) {
        match self {
            Instructions::DownloadAndExec(inst) => inst.resume(host, stage, outcome),
            Instructions::Run(inst) => inst.resume(host, stage, outcome),
            Instructions::DownloadTo(inst) => inst.resume(host, stage, outcome),
            Instructions::Assert(inst) => inst.resume(host, stage, outcome),
            Instructions::ExtractArchive(inst) => inst.resume(host, stage, outcome),
            Instructions::AddEnvVar(inst) => inst.resume(host, stage, outcome),
            Instructions::CreateShortcut(inst) => inst.resume(host, stage, outcome),
            Instructions::WaitForCondition(inst) => inst.resume(host, stage, outcome),
            Instructions::InstallApplication(inst) => inst.resume(host, stage, outcome),
            Instructions::InstallPackage(inst) => inst.resume(host, stage, outcome),
            Instructions::CloneRepository(inst) => inst.resume(host, stage, outcome),
            Instructions::RequestSudo(inst) => inst.resume(host, stage, outcome),
            Instructions::RestartService(inst) => inst.resume(host, stage, outcome),
            Instructions::BackupFile(inst) => inst.resume(host, stage, outcome),
            Instructions::EditFile(inst) => inst.resume(host, stage, outcome),
        }
    }
}

/// Builder of instructions: a description, followed by the choice of what
/// the instruction does.
#[derive(Debug, Clone, PartialEq, Eq, Hash)]
pub struct Instruction {
    /// Human-readable description of what this instruction does
    descriptor: &'static str,
    /// The instruction that was chosen, if any
    instruction: Option<Instructions>,
}

impl Instruction {
    /// The description that the builder was started with.
    pub closed spec fn description(&self) -> Seq<char> {
        self.descriptor@
    }

    /// The instruction that the builder holds, if any.
    pub closed spec fn chosen(&self) -> Option<InstructionsView> {
        match self.instruction {
            Some(inst) => Some(inst@),
            None => None,
        }
    }

    /// Starts an instruction with a description of what it does.
    pub fn new(descriptor: &'static str) -> (builder: Self)
        ensures
            builder.description() == descriptor@,
            builder.chosen() is None,
    {
        Self { descriptor, instruction: None }
    }

    /// Settles on `inst` and hands it out.
    fn settle(self, inst: Instructions) -> (chosen: Instructions)
        ensures
            chosen@ == inst@,
    {
        let builder = Instruction { descriptor: self.descriptor, instruction: Some(inst) };
        Instructions::from_instruction(builder)
    }

    /// Download and execute an installer.
    pub fn download_and_exec(self, url: &'static str) -> (inst: Instructions)
        ensures
            inst@ == (InstructionsView::DownloadAndExec {
                url: url@,
                silent: false,
                custom_args: None,
            }),
    {
        self.settle(Instructions::DownloadAndExec(DownloadAndExec::new(url, false, None)))
    }

    /// Download and execute an installer without asking questions: where
    /// the installer fails, common silent-installation flags are tried.
    pub fn download_and_exec_silent(self, url: &'static str) -> (inst: Instructions)
        ensures
            inst@ == (InstructionsView::DownloadAndExec {
                url: url@,
                silent: true,
                custom_args: None,
            }),
    {
        self.settle(Instructions::DownloadAndExec(DownloadAndExec::new(url, true, None)))
    }

    /// Download and execute an installer with the given arguments.
    pub fn download_and_exec_with_args(
        self,
        url: &'static str,
        args: &'static [&'static str],
    ) -> (inst: Instructions)
        ensures
            inst@ == (InstructionsView::DownloadAndExec {
                url: url@,
                silent: false,
                custom_args: Some(texts(args@)),
            }),
    {
        self.settle(Instructions::DownloadAndExec(DownloadAndExec::new(url, false, Some(args))))
    }

    /// Run a command; the line is split on whitespace.
    pub fn cmd(self, command: &str) -> (inst: Instructions)
        ensures
            inst@ == (InstructionsView::Run { command: words(command@) }),
    {
        self.settle(Instructions::Run(Run::new(command)))
    }

    /// Install an application using the system package manager.
    pub fn install_application(self, package_name: &'static str) -> (inst: Instructions)
        ensures
            inst@ == (InstructionsView::InstallApplication { package_name: package_name@ }),
    {
        self.settle(Instructions::InstallApplication(InstallApplication::new(package_name)))
    }

    /// Install a package using a language package manager.
    pub fn install_package(self, package_name: &'static str) -> (inst: Instructions)
        ensures
            inst@ == (InstructionsView::InstallPackage { package_name: package_name@ }),
    {
        self.settle(Instructions::InstallPackage(InstallPackage::new(package_name)))
    }

    /// Check that `command` prints a text that holds `expect`. This is the
    /// kind of instruction that prerequisite checks are made of.
    pub fn assert_output(self, command: &str, expect: &'static str) -> (inst: Instructions)
        ensures
            inst@ == (InstructionsView::Assert { command: words(command@), expect: expect@ }),
    {
        self.settle(Instructions::Assert(Assert::new(command, expect)))
    }

    /// Download a file to a given path.
    pub fn download_to(self, url: &'static str, path: &'static str) -> (inst: Instructions)
        ensures
            inst@ == (InstructionsView::DownloadTo { url: url@, path: path@ }),
    {
        self.settle(Instructions::DownloadTo(DownloadTo::new(url, path)))
    }

    /// Extract an archive into a directory.
    pub fn extract_archive(self, archive_path: &'static str, destination: &'static str) -> (inst:
        Instructions)
        ensures
            inst@ == (InstructionsView::ExtractArchive {
                archive_path: archive_path@,
                destination: destination@,
            }),
    {
        self.settle(Instructions::ExtractArchive(ExtractArchive::new(archive_path, destination)))
    }

    /// Set an environment variable for future sessions.
    pub fn add_env_var(self, name: &'static str, value: &'static str) -> (inst: Instructions)
        ensures
            inst@ == (InstructionsView::AddEnvVar { name: name@, value: value@ }),
    {
        self.settle(Instructions::AddEnvVar(AddEnvVar::new(name, value)))
    }

    /// Create a shortcut on the desktop.
    pub fn create_shortcut(
        self,
        name: &'static str,
        target: &'static str,
        icon: Option<&'static str>,
    ) -> (inst: Instructions)
        ensures
            inst@ == (InstructionsView::CreateShortcut {
                name: name@,
                target: target@,
                icon: match icon {
                    Some(i) => Some(i@),
                    None => None,
                },
            }),
    {
        self.settle(Instructions::CreateShortcut(CreateShortcut::new(name, target, icon)))
    }

    /// Wait until a command succeeds, for at most `timeout_secs` seconds.
    pub fn wait_for_condition(self, check_command: &str, timeout_secs: u64) -> (inst:
        Instructions)
        ensures
            inst@ == (InstructionsView::WaitForCondition {
                check_command: words(check_command@),
                timeout_secs,
            }),
    {
        self.settle(Instructions::WaitForCondition(WaitForCondition::new(check_command, timeout_secs)))
    }

    /// Clone a Git repository.
    pub fn clone_repository(self, url: &'static str, path: Option<&'static str>) -> (inst:
        Instructions)
        ensures
            inst@ == (InstructionsView::CloneRepository {
                url: url@,
                path: match path {
                    Some(p) => Some(p@),
                    None => None,
                },
            }),
    {
        self.settle(Instructions::CloneRepository(CloneRepository::new(url, path)))
    }

    /// Ask for administrator privileges.
    pub fn request_sudo(self, reason: &'static str) -> (inst: Instructions)
        ensures
            inst@ == (InstructionsView::RequestSudo { reason: reason@ }),
    {
        self.settle(Instructions::RequestSudo(RequestSudo::new(reason)))
    }

    /// Restart a system service.
    pub fn restart_service(self, service_name: &'static str) -> (inst: Instructions)
        ensures
            inst@ == (InstructionsView::RestartService { service_name: service_name@ }),
    {
        self.settle(Instructions::RestartService(RestartService::new(service_name)))
    }

    /// Back up a file.
    pub fn backup_file(self, path: &'static str) -> (inst: Instructions)
        ensures
            inst@ == (InstructionsView::BackupFile { path: path@ }),
    {
        self.settle(Instructions::BackupFile(BackupFile::new(path)))
    }

    /// Replace a text throughout a file.
    pub fn edit_file(self, path: &'static str, find: &'static str, replace: &'static str) -> (inst:
        Instructions)
        ensures
            inst@ == (InstructionsView::EditFile {
                path: path@,
                find: find@,
                replace: replace@,
            }),
    {
        self.settle(Instructions::EditFile(EditFile::new(path, find, replace)))
    }

    /// The first step of the instruction that the builder holds. A builder
    /// that holds none has nothing to do and succeeds at once.
    pub fn execute(&self, dry_run: bool, host: &Host) -> (step: Step)
        ensures
            step@ == match self.chosen() {
                Some(inst) => first_step(inst, dry_run, host@),
                None => succeed(),
            },
    {
        match &self.instruction {
            Some(inst) => inst.run(dry_run, host),
            None => succeed_step(),
        }
    }
}

} // verus!
