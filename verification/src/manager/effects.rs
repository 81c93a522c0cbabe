//! The boundary between the provisioning core and the machine.
//!
//! The core never touches the machine. It hands the host program one
//! [`Effect`] at a time, together with the [`Stage`] at which it wants to be
//! resumed, and the host reports what happened as an [`Outcome`]. A run ends
//! with a [`Step::Finish`].

use crate::logger::LogLevel;
use crate::text::{signed_decimal, to_signed_decimal};
use vstd::prelude::*;
use vstd::string::*;

verus! {

/// The class of platform that the installer runs on.
#[derive(Debug, Clone, Copy, PartialEq, Eq, Structural, Hash)]
pub enum Platform {
    /// Windows and systems that behave like it
    Windows,
    /// Linux, macOS and other Unix-like systems
    Unix,
}

/// What the host program knows about the machine before a run starts.
#[derive(Debug, Clone, PartialEq, Eq)]
pub struct Host {
    /// The class of platform
    pub platform: Platform,
    /// The directory for temporary files
    pub temp_dir: String,
    /// The user's home directory (`HOME`), where it is set
    pub home: Option<String>,
    /// The user's profile directory (`USERPROFILE`), where it is set
    pub user_profile: Option<String>,
}

/// The mathematical content of a [`Host`].
pub struct HostView {
    pub platform: Platform,
    pub temp_dir: Seq<char>,
    pub home: Option<Seq<char>>,
    pub user_profile: Option<Seq<char>>,
}

impl View for Host {
    type V = HostView;

    open spec fn view(&self) -> HostView {
        HostView {
            platform: self.platform,
            temp_dir: self.temp_dir@,
            home: match self.home {
                Some(h) => Some(h@),
                None => None,
            },
            user_profile: match self.user_profile {
                Some(p) => Some(p@),
                None => None,
            },
        }
    }
}

/// Why an instruction, a package or a worker did not succeed.
#[derive(Debug, Clone, Copy, PartialEq, Eq, Hash)]
pub enum ExecutionError {
    /// A file could not be downloaded
    DownloadFailed,
    /// A process whose status counts did not end with success: it ended
    /// with the status `code`, or, where there is none, it was ended from
    /// outside or could not be started at all
    ProcessExitNonZero { code: Option<i32> },
    /// A command ran, but its output lacks the expected text
    AssertionMismatch,
    /// The archive's extension names no supported format
    UnsupportedArchiveFormat,
    /// The downloaded file is of a type that cannot be executed
    UnsupportedFileType,
    /// None of the package managers is available, or none succeeded
    NoPackageManagerAvailable,
    /// The condition did not hold before the timeout elapsed
    ConditionTimeout,
    /// The instruction needs another class of platform
    PlatformMismatch,
    /// The package has no instructions for the detected operating system
    MissingOsMapping,
    /// A worker crashed instead of reporting how it ended
    WorkerPanic,
    /// The command to run has no words
    EmptyCommand,
    /// Neither of the service managers is available
    NoServiceManagerAvailable,
    /// A directory of the user that the instruction needs is not known
    MissingEnvironment,
    /// The host could not carry out an effect
    Io,
    /// The host answered an effect with an outcome of another kind
    UnexpectedOutcome,
}

/// What a log line says about `error`.
pub open spec fn error_text(error: ExecutionError) -> Seq<char> {
    match error {
        ExecutionError::DownloadFailed => "Download failed"@,
        ExecutionError::ProcessExitNonZero { code } => match code {
            Some(c) => "Command failed with exit code: "@ + signed_decimal(c as int),
            None => "Command did not run to its end"@,
        },
        ExecutionError::AssertionMismatch => "Expected text is missing from the command's output"@,
        ExecutionError::UnsupportedArchiveFormat => "Unsupported archive format"@,
        ExecutionError::UnsupportedFileType => "Unsupported filetype for execution"@,
        ExecutionError::NoPackageManagerAvailable => "No suitable package manager found"@,
        ExecutionError::ConditionTimeout => "Timeout waiting for condition"@,
        ExecutionError::PlatformMismatch => "Instruction is not available on this platform"@,
        ExecutionError::MissingOsMapping => "No instructions found for this operating system"@,
        ExecutionError::WorkerPanic => "Worker crashed"@,
        ExecutionError::EmptyCommand => "Empty command"@,
        ExecutionError::NoServiceManagerAvailable => "No service manager found"@,
        ExecutionError::MissingEnvironment => "A directory of the user is not known"@,
        ExecutionError::Io => "The operation could not be carried out"@,
        ExecutionError::UnexpectedOutcome => "The host reported an outcome of the wrong kind"@,
    }
}

impl ExecutionError {
    /// Describes the error for a log line.
    pub fn describe(&self) -> (text: String)
        ensures
            text@ == error_text(*self),
    {
        match self {
            ExecutionError::DownloadFailed => String::from_str("Download failed"),
            ExecutionError::ProcessExitNonZero { code } => match code {
                Some(c) => {
                    let mut text = String::from_str("Command failed with exit code: ");
                    text.append(to_signed_decimal(*c).as_str());
                    text
                },
                None => String::from_str("Command did not run to its end"),
            },
            ExecutionError::AssertionMismatch => String::from_str(
                "Expected text is missing from the command's output",
            ),
            ExecutionError::UnsupportedArchiveFormat => String::from_str(
                "Unsupported archive format",
            ),
            ExecutionError::UnsupportedFileType => String::from_str(
                "Unsupported filetype for execution",
            ),
            ExecutionError::NoPackageManagerAvailable => String::from_str(
                "No suitable package manager found",
            ),
            ExecutionError::ConditionTimeout => String::from_str("Timeout waiting for condition"),
            ExecutionError::PlatformMismatch => String::from_str(
                "Instruction is not available on this platform",
            ),
            ExecutionError::MissingOsMapping => String::from_str(
                "No instructions found for this operating system",
            ),
            ExecutionError::WorkerPanic => String::from_str("Worker crashed"),
            ExecutionError::EmptyCommand => String::from_str("Empty command"),
            ExecutionError::NoServiceManagerAvailable => String::from_str(
                "No service manager found",
            ),
            ExecutionError::MissingEnvironment => String::from_str(
                "A directory of the user is not known",
            ),
            ExecutionError::Io => String::from_str("The operation could not be carried out"),
            ExecutionError::UnexpectedOutcome => String::from_str(
                "The host reported an outcome of the wrong kind",
            ),
        }
    }
}

/// One operation that the host program performs on behalf of the core.
#[derive(Debug, Clone, PartialEq, Eq)]
pub enum Effect {
    /// Hand a message to the logging path. Answered by [`Outcome::Done`].
    Log { level: LogLevel, text: String },
    /// Fetch `url` into the file `dest`. Answered by [`Outcome::Done`] or
    /// [`Outcome::Failed`].
    Download { url: String, dest: String },
    /// Run `argv[0]` with the remaining words as arguments and wait for it
    /// to end. Answered by [`Outcome::Exited`], or by [`Outcome::Failed`]
    /// where the process could not be started.
    Spawn { argv: Vec<String> },
    /// Like [`Effect::Spawn`], but collect the standard output. Answered by
    /// [`Outcome::Captured`] or [`Outcome::Failed`].
    Capture { argv: Vec<String> },
    /// Create the directory `path` and its parents where they are missing.
    /// Answered, like every file operation, by [`Outcome::Done`] or
    /// [`Outcome::Failed`].
    CreateDirAll { path: String },
    /// Ask whether `path` exists. Answered by [`Outcome::Exists`].
    PathExists { path: String },
    /// Delete the file `path`.
    RemoveFile { path: String },
    /// Read the file `path` as text. Answered by [`Outcome::Content`] or
    /// [`Outcome::Failed`].
    ReadFile { path: String },
    /// Replace what the file `path` holds by `content`.
    WriteFile { path: String, content: String },
    /// Add `content` to the end of the file `path`, creating it if needed.
    AppendFile { path: String, content: String },
    /// Copy the file `from` to `to`.
    CopyFile { from: String, to: String },
    /// Pause for `secs` seconds. Answered by [`Outcome::Done`].
    Sleep { secs: u64 },
    /// Read a clock that never runs backwards. Answered by
    /// [`Outcome::Time`], in whole seconds.
    ReadMonotonicClock,
    /// Read the wall clock. Answered by [`Outcome::Time`], in whole seconds
    /// since the Unix epoch, or by [`Outcome::Failed`].
    ReadWallClock,
}

/// The mathematical content of an [`Effect`].
pub enum EffectView {
    Log { level: LogLevel, text: Seq<char> },
    Download { url: Seq<char>, dest: Seq<char> },
    Spawn { argv: Seq<Seq<char>> },
    Capture { argv: Seq<Seq<char>> },
    CreateDirAll { path: Seq<char> },
    PathExists { path: Seq<char> },
    RemoveFile { path: Seq<char> },
    ReadFile { path: Seq<char> },
    WriteFile { path: Seq<char>, content: Seq<char> },
    AppendFile { path: Seq<char>, content: Seq<char> },
    CopyFile { from: Seq<char>, to: Seq<char> },
    Sleep { secs: u64 },
    ReadMonotonicClock,
    ReadWallClock,
}

impl View for Effect {
    type V = EffectView;

    open spec fn view(&self) -> EffectView {
        match self {
            Effect::Log { level, text } => EffectView::Log { level: *level, text: text@ },
            Effect::Download { url, dest } => EffectView::Download { url: url@, dest: dest@ },
            Effect::Spawn { argv } => EffectView::Spawn { argv: argv.deep_view() },
            Effect::Capture { argv } => EffectView::Capture { argv: argv.deep_view() },
            Effect::CreateDirAll { path } => EffectView::CreateDirAll { path: path@ },
            Effect::PathExists { path } => EffectView::PathExists { path: path@ },
            Effect::RemoveFile { path } => EffectView::RemoveFile { path: path@ },
            Effect::ReadFile { path } => EffectView::ReadFile { path: path@ },
            Effect::WriteFile { path, content } => EffectView::WriteFile {
                path: path@,
                content: content@,
            },
            Effect::AppendFile { path, content } => EffectView::AppendFile {
                path: path@,
                content: content@,
            },
            Effect::CopyFile { from, to } => EffectView::CopyFile { from: from@, to: to@ },
            Effect::Sleep { secs } => EffectView::Sleep { secs: *secs },
            Effect::ReadMonotonicClock => EffectView::ReadMonotonicClock,
            Effect::ReadWallClock => EffectView::ReadWallClock,
        }
    }
}

impl EffectView {
    /// Whether the effect reaches out to the network.
    pub open spec fn is_network_call(self) -> bool {
        self is Download
    }

    /// Whether the effect starts a process.
    pub open spec fn is_process_spawn(self) -> bool {
        self is Spawn || self is Capture
    }

    /// Whether the effect changes the file system.
    pub open spec fn is_filesystem_write(self) -> bool {
        ||| self is Download
        ||| self is CreateDirAll
        ||| self is RemoveFile
        ||| self is WriteFile
        ||| self is AppendFile
        ||| self is CopyFile
    }

    /// Whether the effect only reports through the logging path.
    pub open spec fn is_report(self) -> bool {
        self is Log
    }
}

/// What the host program observed when it performed an [`Effect`].
#[derive(Debug, Clone, PartialEq, Eq)]
pub enum Outcome {
    /// The effect was carried out and has nothing to report.
    Done,
    /// The effect could not be carried out.
    Failed,
    /// The process ran and ended.
    Exited { success: bool, code: Option<i32> },
    /// The process ran and ended; `stdout` is what it wrote.
    Captured { success: bool, code: Option<i32>, stdout: String },
    /// Whether the path exists.
    Exists { exists: bool },
    /// What the file holds.
    Content { text: String },
    /// The clock's reading in whole seconds.
    Time { secs: u64 },
}

/// The mathematical content of an [`Outcome`].
pub enum OutcomeView {
    Done,
    Failed,
    Exited { success: bool, code: Option<i32> },
    Captured { success: bool, code: Option<i32>, stdout: Seq<char> },
    Exists { exists: bool },
    Content { text: Seq<char> },
    Time { secs: u64 },
}

impl View for Outcome {
    type V = OutcomeView;

    open spec fn view(&self) -> OutcomeView {
        match self {
            Outcome::Done => OutcomeView::Done,
            Outcome::Failed => OutcomeView::Failed,
            Outcome::Exited { success, code } => OutcomeView::Exited {
                success: *success,
                code: *code,
            },
            Outcome::Captured { success, code, stdout } => OutcomeView::Captured {
                success: *success,
                code: *code,
                stdout: stdout@,
            },
            Outcome::Exists { exists } => OutcomeView::Exists { exists: *exists },
            Outcome::Content { text } => OutcomeView::Content { text: text@ },
            Outcome::Time { secs } => OutcomeView::Time { secs: *secs },
        }
    }
}

/// Where an instruction stands while the host performs an effect for it:
/// what is left to do once the outcome is known.
#[derive(Debug, Clone, Copy, PartialEq, Eq, Hash)]
pub enum Stage {
    /// Nothing is left: the instruction succeeds whatever the outcome.
    Finished,
    /// A process was started; it must have run, with any status.
    ExitIgnored,
    /// A process was started; it must have run and ended with success.
    ExitChecked,
    /// A file operation was started; it must have been carried out.
    Completed,
    /// A download to a given path was started.
    Downloaded,
    /// A command was run whose output is to be checked.
    OutputChecked,
    /// The destination directory of an archive is being created.
    DestinationReady,
    /// The file of a shortcut is being written.
    ShortcutWritten,
    /// The clock is read before the first poll of a condition.
    TimerStarted,
    /// The condition was polled; `started` is the first clock reading.
    Polled { started: u64 },
    /// The pause between two polls.
    Paused { started: u64 },
    /// The clock is read before the next poll.
    Clocked { started: u64 },
    /// Package manager number `index` is probed for availability.
    ManagerProbed { index: usize },
    /// Package manager number `index` is installing.
    ManagerTried { index: usize },
    /// The request for privileges was announced.
    SudoAnnounced,
    /// The service is being stopped.
    ServiceStopped,
    /// The pause between stopping and starting the service.
    ServicePaused,
    /// The first service manager is probed.
    SystemdProbed,
    /// The second service manager is probed.
    SysvProbed,
    /// The file to back up is looked for.
    BackupProbed,
    /// The wall clock is read for the name of the backup.
    BackupTimed,
    /// The file is copied to its backup, named after `stamp`.
    BackupCopied { stamp: u64 },
    /// The file to edit is being read.
    FileRead,
    /// An installer is being downloaded.
    InstallerFetched,
    /// A Windows executable installer is running.
    InstallerRan,
    /// The installer runs again with silent flag number `index`.
    SilentRetried { index: usize },
    /// A Windows installer package is being installed.
    MsiRan,
    /// A Unix executable installer is running.
    BinaryRan,
    /// The downloaded file is looked for, to delete it; `result` is how the
    /// installation went.
    CleanupProbed { result: Result<(), ExecutionError> },
    /// The downloaded file is being deleted.
    CleanupDone { result: Result<(), ExecutionError> },
}

/// What an instruction asks for next.
#[derive(Debug, PartialEq, Eq)]
pub enum Step {
    /// Perform `effect`, then resume the instruction at `then` with the
    /// outcome.
    Perform { effect: Effect, then: Stage },
    /// The instruction has ended with `result`.
    Finish { result: Result<(), ExecutionError> },
}

/// The mathematical content of a [`Step`].
pub enum StepView {
    Perform { effect: EffectView, then: Stage },
    Finish { result: Result<(), ExecutionError> },
}

impl View for Step {
    type V = StepView;

    open spec fn view(&self) -> StepView {
        match self {
            Step::Perform { effect, then } => StepView::Perform { effect: effect@, then: *then },
            Step::Finish { result } => StepView::Finish { result: *result },
        }
    }
}

} // verus!
