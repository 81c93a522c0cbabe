//! What instructions do, stated over their mathematical content.
//!
//! An instruction is executed in steps. [`first_step`] is the step that an
//! instruction begins with, and [`next_step`] is the step that follows when
//! the host has observed an outcome for the effect that was asked for. The
//! executable instructions of [`crate::manager::instructions`] are proved to
//! take exactly these steps.

use crate::logger::LogLevel;
use crate::manager::effects::{
    EffectView, ExecutionError, HostView, OutcomeView, Platform, Stage, StepView,
};
use crate::text::{
    contains_text, decimal, extension_of, joined, last_segment_of, replaced,
    same_ignoring_ascii_case,
};
use vstd::prelude::*;

verus! {


/// The mathematical content of an instruction: its kind and its parameters.
pub enum InstructionsView {
    DownloadAndExec { url: Seq<char>, silent: bool, custom_args: Option<Seq<Seq<char>>> },
    Run { command: Seq<Seq<char>> },
    DownloadTo { url: Seq<char>, path: Seq<char> },
    Assert { command: Seq<Seq<char>>, expect: Seq<char> },
    ExtractArchive { archive_path: Seq<char>, destination: Seq<char> },
    AddEnvVar { name: Seq<char>, value: Seq<char> },
    CreateShortcut { name: Seq<char>, target: Seq<char>, icon: Option<Seq<char>> },
    WaitForCondition { check_command: Seq<Seq<char>>, timeout_secs: u64 },
    InstallApplication { package_name: Seq<char> },
    InstallPackage { package_name: Seq<char> },
    CloneRepository { url: Seq<char>, path: Option<Seq<char>> },
    RequestSudo { reason: Seq<char> },
    RestartService { service_name: Seq<char> },
    BackupFile { path: Seq<char> },
    EditFile { path: Seq<char>, find: Seq<char>, replace: Seq<char> },
}

/// The characters of each string of `list`.
pub open spec fn texts(list: Seq<&'static str>) -> Seq<Seq<char>> {
    Seq::new(list.len(), |i: int| list[i]@)
}

/// The step that asks for `effect` and continues at `then`.
pub open spec fn perform(effect: EffectView, then: Stage) -> StepView {
    StepView::Perform { effect, then }
}

/// The step that ends an instruction with success.
pub open spec fn succeed() -> StepView {
    StepView::Finish { result: Ok(()) }
}

/// The step that ends an instruction with `error`.
pub open spec fn fail(error: ExecutionError) -> StepView {
    StepView::Finish { result: Err(error) }
}

/// An informational message for the logging path.
pub open spec fn report(text: Seq<char>) -> EffectView {
    EffectView::Log { level: LogLevel::Info, text }
}

/// The character that separates the parts of a path on `platform`.
pub open spec fn path_separator(platform: Platform) -> char {
    match platform {
        Platform::Windows => '\\',
        Platform::Unix => '/',
    }
}

/// The path of the file `name` in the directory `dir`.
pub open spec fn path_in(dir: Seq<char>, name: Seq<char>, platform: Platform) -> Seq<char> {
    if dir.len() == 0 || dir.last() == path_separator(platform) {
        dir + name
    } else {
        dir + seq![path_separator(platform)] + name
    }
}

/// Where the installer downloaded from `url` is kept while it runs: in the
/// host's directory for temporary files, under the last segment of `url`.
pub open spec fn installer_path(url: Seq<char>, host: HostView) -> Seq<char> {
    path_in(host.temp_dir, last_segment_of(url), host.platform)
}

/// How a downloaded installer is executed, by the extension of its file.
#[derive(Debug, Clone, Copy, PartialEq, Eq, Structural, Hash)]
pub enum InstallerKind {
    /// `.exe`: a Windows executable
    Exe,
    /// `.msi`: a Windows installer package
    Msi,
    /// No extension: a Unix executable
    Binary,
    /// `.zip`: an archive, which is never executed
    Zip,
    /// Anything else
    Other,
}

/// The kind of installer that a file of the name `path` is. Letter case is
/// ignored. A downloaded installer is classified by the last segment of the
/// URL that it comes from, wherever the host keeps the file.
pub open spec fn installer_kind_of(path: Seq<char>) -> InstallerKind {
    match extension_of(path) {
        None => InstallerKind::Binary,
        Some(ext) => if ext.len() == 0 {
            InstallerKind::Binary
        } else if same_ignoring_ascii_case(ext, "exe"@) {
            InstallerKind::Exe
        } else if same_ignoring_ascii_case(ext, "msi"@) {
            InstallerKind::Msi
        } else if same_ignoring_ascii_case(ext, "zip"@) {
            InstallerKind::Zip
        } else {
            InstallerKind::Other
        },
    }
}

/// The archive formats that can be extracted.
#[derive(Debug, Clone, Copy, PartialEq, Eq, Structural, Hash)]
pub enum ArchiveFormat {
    /// `.zip`
    Zip,
    /// `.gz`, `.tgz`
    Gzip,
    /// `.bz2`, `.tbz2`
    Bzip2,
    /// `.xz`, `.txz`
    Xz,
}

/// The format of the archive that `path` names, by its extension; `None`
/// where the path has no extension or an unsupported one. Letter case is
/// ignored.
pub open spec fn archive_format_of(path: Seq<char>) -> Option<ArchiveFormat> {
    match extension_of(path) {
        None => None,
        Some(ext) => if same_ignoring_ascii_case(ext, "zip"@) {
            Some(ArchiveFormat::Zip)
        } else if same_ignoring_ascii_case(ext, "gz"@) || same_ignoring_ascii_case(ext, "tgz"@) {
            Some(ArchiveFormat::Gzip)
        } else if same_ignoring_ascii_case(ext, "bz2"@) || same_ignoring_ascii_case(
            ext,
            "tbz2"@,
        ) {
            Some(ArchiveFormat::Bzip2)
        } else if same_ignoring_ascii_case(ext, "xz"@) || same_ignoring_ascii_case(ext, "txz"@) {
            Some(ArchiveFormat::Xz)
        } else {
            None
        },
    }
}

/// The command that extracts `archive` of the given format into `destination`.
pub open spec fn extract_argv(format: ArchiveFormat, archive: Seq<char>, destination: Seq<char>)
    -> Seq<Seq<char>> {
    match format {
        ArchiveFormat::Zip => seq!["unzip"@, "-o"@, archive, "-d"@, destination],
        ArchiveFormat::Gzip => seq!["tar"@, "-xzf"@, archive, "-C"@, destination],
        ArchiveFormat::Bzip2 => seq!["tar"@, "-xjf"@, archive, "-C"@, destination],
        ArchiveFormat::Xz => seq!["tar"@, "-xJf"@, archive, "-C"@, destination],
    }
}

/// The number of silent-installation flags that are tried in turn.
pub open spec fn silent_flag_count() -> nat {
    7
}

/// Silent-installation flag number `index`.
pub open spec fn silent_flag(index: nat) -> Seq<char> {
    if index == 0 {
        "/SILENT"@
    } else if index == 1 {
        "/VERYSILENT"@
    } else if index == 2 {
        "/quiet"@
    } else if index == 3 {
        "/Q"@
    } else if index == 4 {
        "/s"@
    } else if index == 5 {
        "--silent"@
    } else {
        "-s"@
    }
}

/// The number of system package managers that are tried on `platform`.
pub open spec fn system_manager_count(platform: Platform) -> nat {
    match platform {
        Platform::Windows => 2,
        Platform::Unix => 6,
    }
}

/// The name of system package manager number `index` on `platform`.
pub open spec fn system_manager_name(platform: Platform, index: nat) -> Seq<char> {
    match platform {
        Platform::Windows => if index == 0 {
            "choco"@
        } else {
            "winget"@
        },
        Platform::Unix => if index == 0 {
            "apt"@
        } else if index == 1 {
            "yum"@
        } else if index == 2 {
            "dnf"@
        } else if index == 3 {
            "pacman"@
        } else if index == 4 {
            "zypper"@
        } else {
            "brew"@
        },
    }
}

/// The command that tells whether system package manager number `index` is
/// available.
pub open spec fn system_manager_probe(platform: Platform, index: nat) -> Seq<Seq<char>> {
    match platform {
        Platform::Windows => seq![system_manager_name(platform, index), "--version"@],
        Platform::Unix => seq!["which"@, system_manager_name(platform, index)],
    }
}

/// The command by which system package manager number `index` installs
/// `package`.
pub open spec fn system_manager_install(platform: Platform, index: nat, package: Seq<char>) -> Seq<
    Seq<char>,
> {
    match platform {
        Platform::Windows => if index == 0 {
            seq!["choco"@, "install"@, package, "-y"@]
        } else {
            seq!["winget"@, "install"@, "--id"@, package, "-e"@]
        },
        Platform::Unix => if index == 3 {
            seq!["pacman"@, "-S"@, "--noconfirm"@, package]
        } else if index == 5 {
            seq!["brew"@, "install"@, package]
        } else {
            seq![system_manager_name(platform, index), "install"@, "-y"@, package]
        },
    }
}

/// The number of language package managers that are tried.
pub open spec fn language_manager_count() -> nat {
    9
}

/// The name of language package manager number `index`.
pub open spec fn language_manager_name(index: nat) -> Seq<char> {
    if index == 0 {
        "npm"@
    } else if index == 1 {
        "yarn"@
    } else if index == 2 {
        "bun"@
    } else if index == 3 {
        "pnpm"@
    } else if index == 4 {
        "cargo"@
    } else if index == 5 {
        "pipx"@
    } else if index == 6 {
        "pip"@
    } else if index == 7 {
        "gem"@
    } else {
        "go"@
    }
}

/// The command that tells whether language package manager number `index`
/// is available.
pub open spec fn language_manager_probe(index: nat) -> Seq<Seq<char>> {
    if index == 8 {
        seq!["go"@, "version"@]
    } else {
        seq![language_manager_name(index), "--version"@]
    }
}

/// The command by which language package manager number `index` installs
/// `package`.
pub open spec fn language_manager_install(index: nat, package: Seq<char>) -> Seq<Seq<char>> {
    if index == 0 {
        seq!["npm"@, "install"@, "-g"@, package]
    } else if index == 1 {
        seq!["yarn"@, "global"@, "add"@, package]
    } else if index == 2 {
        seq!["bun"@, "add"@, "-g"@, package]
    } else if index == 3 {
        seq!["pnpm"@, "add"@, "-g"@, package]
    } else if index == 4 {
        seq!["cargo"@, "install"@, package]
    } else if index == 5 {
        seq!["pipx"@, "install"@, package]
    } else if index == 6 {
        seq!["pip"@, "install"@, "--user"@, package]
    } else if index == 7 {
        seq!["gem"@, "install"@, package]
    } else {
        seq!["go"@, "install"@, package + "@latest"@]
    }
}

/// The number of package managers that `inst` tries on `platform`.
pub open spec fn manager_count(inst: InstructionsView, platform: Platform) -> nat {
    match inst {
        InstructionsView::InstallApplication { .. } => system_manager_count(platform),
        InstructionsView::InstallPackage { .. } => language_manager_count(),
        _ => 0,
    }
}

/// The availability probe of package manager number `index` of `inst`.
pub open spec fn manager_probe(inst: InstructionsView, platform: Platform, index: nat) -> Seq<
    Seq<char>,
> {
    match inst {
        InstructionsView::InstallApplication { .. } => system_manager_probe(platform, index),
        _ => language_manager_probe(index),
    }
}

/// The installing command of package manager number `index` of `inst`.
pub open spec fn manager_install(inst: InstructionsView, platform: Platform, index: nat) -> Seq<
    Seq<char>,
> {
    match inst {
        InstructionsView::InstallApplication { package_name } => system_manager_install(
            platform,
            index,
            package_name,
        ),
        InstructionsView::InstallPackage { package_name } => language_manager_install(
            index,
            package_name,
        ),
        _ => Seq::empty(),
    }
}

/// Probes package manager number `index`, or gives up where none is left.
pub open spec fn probe_from(inst: InstructionsView, platform: Platform, index: nat) -> StepView {
    if index < manager_count(inst, platform) {
        perform(
            EffectView::Capture { argv: manager_probe(inst, platform, index) },
            Stage::ManagerProbed { index: index as usize },
        )
    } else {
        fail(ExecutionError::NoPackageManagerAvailable)
    }
}

/// The file that a shortcut named `name` is written to below `home`.
pub open spec fn desktop_file(home: Seq<char>, name: Seq<char>) -> Seq<char> {
    home + "/Desktop/"@ + name + ".desktop"@
}

/// What the file of a shortcut holds.
pub open spec fn desktop_entry(name: Seq<char>, target: Seq<char>, icon: Option<Seq<char>>) -> Seq<
    char,
> {
    let head = "[Desktop Entry]\nVersion=1.0\nType=Application\nName="@ + name + "\nExec="@
        + target + "\n"@;
    match icon {
        Some(i) => head + "Icon="@ + i + "\n"@ + "Terminal=false\n"@,
        None => head + "Terminal=false\n"@,
    }
}

/// The script that creates the shortcut `name` to `target` on the desktop
/// below `profile`.
pub open spec fn shortcut_script(profile: Seq<char>, name: Seq<char>, target: Seq<char>) -> Seq<
    char,
> {
    "$WshShell = New-Object -comObject WScript.Shell; $Shortcut = $WshShell.CreateShortcut(\""@
        + profile + "\\Desktop\\"@ + name + ".lnk"@ + "\"); $Shortcut.TargetPath = \""@ + target
        + "\"; $Shortcut.Save()"@
}

/// The line that sets the variable `name` to `value` in a shell profile.
pub open spec fn export_line(name: Seq<char>, value: Seq<char>) -> Seq<char> {
    "export "@ + name + "=\""@ + value + "\"\n"@
}

/// The name of the backup of `path` that is made at `stamp`.
pub open spec fn backup_path(path: Seq<char>, stamp: u64) -> Seq<char> {
    path + ".backup."@ + decimal(stamp as nat)
}

/// The arguments that an installer is started with.
pub open spec fn installer_args(
    kind: InstallerKind,
    silent: bool,
    custom_args: Option<Seq<Seq<char>>>,
) -> Seq<Seq<char>> {
    match custom_args {
        Some(args) => args,
        None => if silent && kind == InstallerKind::Exe {
            seq!["/S"@]
        } else if silent && kind == InstallerKind::Msi {
            seq!["/quiet"@, "/qn"@, "/norestart"@]
        } else {
            Seq::empty()
        },
    }
}

/// Ends the execution of a downloaded installer with `result`, after
/// deleting the file `dest` if it is there.
pub open spec fn clean_up(dest: Seq<char>, result: Result<(), ExecutionError>) -> StepView {
    perform(EffectView::PathExists { path: dest }, Stage::CleanupProbed { result })
}

/// What `inst` reports in a dry run.
pub open spec fn dry_run_text(inst: InstructionsView, host: HostView) -> Seq<char> {
    match inst {
        InstructionsView::DownloadAndExec { url, .. } => "Dry run: would download "@ + url
            + " to "@ + installer_path(url, host),
        InstructionsView::Run { command } => "Dry run: would execute command: "@ + joined(
            command,
            " "@,
        ),
        InstructionsView::DownloadTo { url, path } => "Dry run: would download "@ + url + " to "@
            + path,
        InstructionsView::Assert { command, expect } => "Dry run: expect the result of: "@
            + joined(command, " "@) + " to be "@ + expect,
        InstructionsView::ExtractArchive { archive_path, destination } =>
            "Dry run: would extract "@ + archive_path + " to "@ + destination,
        InstructionsView::AddEnvVar { name, value } =>
            "Dry run: would set environment variable "@ + name + "="@ + value,
        InstructionsView::CreateShortcut { name, target, icon } => {
            let head = "Dry run: would create shortcut '"@ + name + "' pointing to '"@ + target
                + "'"@;
            match icon {
                Some(i) => head + " with icon '"@ + i + "'"@,
                None => head,
            }
        },
        InstructionsView::WaitForCondition { check_command, timeout_secs } =>
            "Dry run: would wait up to "@ + decimal(timeout_secs as nat)
                + " seconds for command '"@ + joined(check_command, " "@) + "' to succeed"@,
        InstructionsView::InstallApplication { package_name } =>
            "Dry run: would install package '"@ + package_name + "'"@,
        InstructionsView::InstallPackage { package_name } => "Dry run: would install package '"@
            + package_name + "' using language package manager"@,
        InstructionsView::CloneRepository { url, path } => {
            let head = "Dry run: would clone repository '"@ + url + "' "@;
            match path {
                Some(p) => head + "to '"@ + p + "'"@,
                None => head + "to current directory"@,
            }
        },
        InstructionsView::RequestSudo { reason } =>
            "Dry run: would request administrator privileges: "@ + reason,
        InstructionsView::RestartService { service_name } => "Dry run: would restart service '"@
            + service_name + "'"@,
        InstructionsView::BackupFile { path } => "Dry run: would backup file '"@ + path + "'"@,
        InstructionsView::EditFile { path, find, replace } => "Dry run: would edit file '"@ + path
            + "' replacing '"@ + find + "' with '"@ + replace + "'"@,
    }
}

/// Polls the condition once more, unless the timeout has elapsed.
pub open spec fn poll_or_time_out(
    check_command: Seq<Seq<char>>,
    timeout_secs: u64,
    started: u64,
    now: u64,
) -> StepView {
    let elapsed = if now >= started {
        now - started
    } else {
        0
    };
    if elapsed >= timeout_secs {
        fail(ExecutionError::ConditionTimeout)
    } else if check_command.len() == 0 {
        fail(ExecutionError::EmptyCommand)
    } else {
        perform(EffectView::Spawn { argv: check_command }, Stage::Polled { started })
    }
}

/// The first step of `inst` when it really runs.
pub open spec fn first_real_step(inst: InstructionsView, host: HostView) -> StepView {
    match inst {
        InstructionsView::DownloadAndExec { url, .. } => perform(
            EffectView::Download { url, dest: installer_path(url, host) },
            Stage::InstallerFetched,
        ),
        InstructionsView::Run { command } => if command.len() == 0 {
            fail(ExecutionError::EmptyCommand)
        } else {
            perform(EffectView::Spawn { argv: command }, Stage::ExitChecked)
        },
        InstructionsView::DownloadTo { url, path } => perform(
            EffectView::Download { url, dest: path },
            Stage::Downloaded,
        ),
        InstructionsView::Assert { command, .. } => if command.len() == 0 {
            fail(ExecutionError::EmptyCommand)
        } else {
            perform(EffectView::Capture { argv: command }, Stage::OutputChecked)
        },
        InstructionsView::ExtractArchive { archive_path, destination } => match archive_format_of(
            archive_path,
        ) {
            None => fail(ExecutionError::UnsupportedArchiveFormat),
            Some(_) => perform(
                EffectView::CreateDirAll { path: destination },
                Stage::DestinationReady,
            ),
        },
        InstructionsView::AddEnvVar { name, value } => match host.platform {
            Platform::Windows => perform(
                EffectView::Spawn { argv: seq!["setx"@, name, value] },
                Stage::ExitIgnored,
            ),
            Platform::Unix => match host.home {
                None => fail(ExecutionError::MissingEnvironment),
                Some(home) => perform(
                    EffectView::AppendFile {
                        path: home + "/.bashrc"@,
                        content: export_line(name, value),
                    },
                    Stage::Completed,
                ),
            },
        },
        InstructionsView::CreateShortcut { name, target, icon } => match host.platform {
            Platform::Windows => match host.user_profile {
                None => fail(ExecutionError::MissingEnvironment),
                Some(profile) => perform(
                    EffectView::Spawn {
                        argv: seq![
                            "powershell"@,
                            "-Command"@,
                            shortcut_script(profile, name, target),
                        ],
                    },
                    Stage::ExitIgnored,
                ),
            },
            Platform::Unix => match host.home {
                None => fail(ExecutionError::MissingEnvironment),
                Some(home) => perform(
                    EffectView::WriteFile {
                        path: desktop_file(home, name),
                        content: desktop_entry(name, target, icon),
                    },
                    Stage::ShortcutWritten,
                ),
            },
        },
        InstructionsView::WaitForCondition { .. } => perform(
            EffectView::ReadMonotonicClock,
            Stage::TimerStarted,
        ),
        InstructionsView::InstallApplication { .. } => probe_from(inst, host.platform, 0),
        InstructionsView::InstallPackage { .. } => probe_from(inst, host.platform, 0),
        InstructionsView::CloneRepository { url, path } => perform(
            EffectView::Spawn {
                argv: match path {
                    Some(p) => seq!["git"@, "clone"@, url, p],
                    None => seq!["git"@, "clone"@, url],
                },
            },
            Stage::ExitChecked,
        ),
        InstructionsView::RequestSudo { reason } => perform(
            report("Administrator privileges required: "@ + reason),
            Stage::SudoAnnounced,
        ),
        InstructionsView::RestartService { service_name } => match host.platform {
            Platform::Windows => perform(
                EffectView::Spawn { argv: seq!["sc"@, "stop"@, service_name] },
                Stage::ServiceStopped,
            ),
            Platform::Unix => perform(
                EffectView::Capture { argv: seq!["systemctl"@, "--version"@] },
                Stage::SystemdProbed,
            ),
        },
        InstructionsView::BackupFile { path } => perform(
            EffectView::PathExists { path },
            Stage::BackupProbed,
        ),
        InstructionsView::EditFile { path, .. } => perform(
            EffectView::ReadFile { path },
            Stage::FileRead,
        ),
    }
}

/// The first step of `inst`. In a dry run it is the report of what the
/// instruction would do, after which nothing is left.
pub open spec fn first_step(inst: InstructionsView, dry_run: bool, host: HostView) -> StepView {
    if dry_run {
        perform(report(dry_run_text(inst, host)), Stage::Finished)
    } else {
        first_real_step(inst, host)
    }
}

/// The next step at a stage that every kind of instruction shares; at any
/// other stage the outcome is unexpected.
pub open spec fn common_next(stage: Stage, outcome: OutcomeView) -> StepView {
    match stage {
        Stage::Finished => succeed(),
        Stage::ExitIgnored => match outcome {
            OutcomeView::Exited { .. } => succeed(),
            OutcomeView::Failed => fail(ExecutionError::Io),
            _ => fail(ExecutionError::UnexpectedOutcome),
        },
        Stage::ExitChecked => match outcome {
            OutcomeView::Exited { success, code } => if success {
                succeed()
            } else {
                fail(ExecutionError::ProcessExitNonZero { code })
            },
            OutcomeView::Failed => fail(ExecutionError::ProcessExitNonZero { code: None }),
            _ => fail(ExecutionError::UnexpectedOutcome),
        },
        Stage::Completed => match outcome {
            OutcomeView::Done => succeed(),
            OutcomeView::Failed => fail(ExecutionError::Io),
            _ => fail(ExecutionError::UnexpectedOutcome),
        },
        Stage::Downloaded => match outcome {
            OutcomeView::Done => succeed(),
            OutcomeView::Failed => fail(ExecutionError::DownloadFailed),
            _ => fail(ExecutionError::UnexpectedOutcome),
        },
        _ => fail(ExecutionError::UnexpectedOutcome),
    }
}

/// Whether the outcome says that a command ran and ended with success.
pub open spec fn ran_with_success(outcome: OutcomeView) -> bool {
    match outcome {
        OutcomeView::Exited { success, .. } => success,
        OutcomeView::Captured { success, .. } => success,
        _ => false,
    }
}

/// Whether the outcome is that of a command: it ran, or it could not be
/// started.
pub open spec fn is_command_outcome(outcome: OutcomeView) -> bool {
    outcome is Exited || outcome is Captured || outcome is Failed
}

/// The step of a downloaded installer after `outcome` at `stage`.
pub open spec fn installer_next(
    url: Seq<char>,
    silent: bool,
    custom_args: Option<Seq<Seq<char>>>,
    host: HostView,
    stage: Stage,
    outcome: OutcomeView,
) -> StepView {
    let dest = installer_path(url, host);
    let kind = installer_kind_of(last_segment_of(url));
    match stage {
        Stage::InstallerFetched => match outcome {
            OutcomeView::Done => match kind {
                InstallerKind::Exe => match host.platform {
                    Platform::Windows => perform(
                        EffectView::Spawn {
                            argv: seq![dest] + installer_args(kind, silent, custom_args),
                        },
                        Stage::InstallerRan,
                    ),
                    Platform::Unix => clean_up(dest, Err(ExecutionError::PlatformMismatch)),
                },
                InstallerKind::Msi => match host.platform {
                    Platform::Windows => perform(
                        EffectView::Spawn {
                            argv: seq!["msiexec"@, "/i"@, dest] + installer_args(
                                kind,
                                silent,
                                custom_args,
                            ),
                        },
                        Stage::MsiRan,
                    ),
                    Platform::Unix => clean_up(dest, Err(ExecutionError::PlatformMismatch)),
                },
                InstallerKind::Binary => match host.platform {
                    Platform::Unix => perform(
                        EffectView::Spawn {
                            argv: seq![dest] + installer_args(kind, silent, custom_args),
                        },
                        Stage::BinaryRan,
                    ),
                    Platform::Windows => clean_up(dest, Err(ExecutionError::PlatformMismatch)),
                },
                InstallerKind::Zip => clean_up(dest, Err(ExecutionError::UnsupportedFileType)),
                InstallerKind::Other => clean_up(dest, Err(ExecutionError::UnsupportedFileType)),
            },
            OutcomeView::Failed => clean_up(dest, Err(ExecutionError::DownloadFailed)),
            _ => fail(ExecutionError::UnexpectedOutcome),
        },
        Stage::InstallerRan => match outcome {
            OutcomeView::Exited { success, .. } => if !success && silent && custom_args is None {
                perform(
                    EffectView::Spawn { argv: seq![dest, silent_flag(0)] },
                    Stage::SilentRetried { index: 0 },
                )
            } else {
                clean_up(dest, Ok(()))
            },
            OutcomeView::Failed => clean_up(dest, Err(ExecutionError::Io)),
            _ => fail(ExecutionError::UnexpectedOutcome),
        },
        Stage::SilentRetried { index } => if !is_command_outcome(outcome) || index
            >= silent_flag_count() {
            fail(ExecutionError::UnexpectedOutcome)
        } else if ran_with_success(outcome) || index + 1 >= silent_flag_count() {
            clean_up(dest, Ok(()))
        } else {
            perform(
                EffectView::Spawn { argv: seq![dest, silent_flag((index + 1) as nat)] },
                Stage::SilentRetried { index: (index + 1) as usize },
            )
        },
        Stage::MsiRan => match outcome {
            OutcomeView::Exited { .. } => clean_up(dest, Ok(())),
            OutcomeView::Failed => clean_up(dest, Err(ExecutionError::Io)),
            _ => fail(ExecutionError::UnexpectedOutcome),
        },
        Stage::BinaryRan => match outcome {
            OutcomeView::Exited { success, code } => if success {
                clean_up(dest, Ok(()))
            } else {
                clean_up(dest, Err(ExecutionError::ProcessExitNonZero { code }))
            },
            OutcomeView::Failed => clean_up(
                dest,
                Err(ExecutionError::ProcessExitNonZero { code: None }),
            ),
            _ => fail(ExecutionError::UnexpectedOutcome),
        },
        Stage::CleanupProbed { result } => match outcome {
            OutcomeView::Exists { exists } => if exists {
                perform(EffectView::RemoveFile { path: dest }, Stage::CleanupDone { result })
            } else {
                StepView::Finish { result }
            },
            _ => fail(ExecutionError::UnexpectedOutcome),
        },
        Stage::CleanupDone { result } => match outcome {
            OutcomeView::Done => StepView::Finish { result },
            OutcomeView::Failed => if result is Ok {
                fail(ExecutionError::Io)
            } else {
                StepView::Finish { result }
            },
            _ => fail(ExecutionError::UnexpectedOutcome),
        },
        _ => common_next(stage, outcome),
    }
}

/// The step of a package installation after `outcome` at `stage`.
///
/// A manager installs only after its probe succeeded. A manager that is
/// not available, that cannot be started or that ends without success is
/// passed over for the next one. The installation succeeds with the first
/// manager that does, and fails, for want of a package manager, only when
/// none is left.
pub open spec fn manager_next(
    inst: InstructionsView,
    platform: Platform,
    stage: Stage,
    outcome: OutcomeView,
) -> StepView {
    match stage {
        Stage::ManagerProbed { index } => if index >= manager_count(inst, platform) {
            fail(ExecutionError::UnexpectedOutcome)
        } else {
            match outcome {
                OutcomeView::Captured { success, .. } => if success {
                    perform(
                        EffectView::Spawn { argv: manager_install(inst, platform, index as nat) },
                        Stage::ManagerTried { index },
                    )
                } else {
                    probe_from(inst, platform, (index + 1) as nat)
                },
                OutcomeView::Failed => probe_from(inst, platform, (index + 1) as nat),
                _ => fail(ExecutionError::UnexpectedOutcome),
            }
        },
        Stage::ManagerTried { index } => if index >= manager_count(inst, platform) {
            fail(ExecutionError::UnexpectedOutcome)
        } else {
            match outcome {
                OutcomeView::Exited { success, .. } => if success {
                    succeed()
                } else {
                    probe_from(inst, platform, (index + 1) as nat)
                },
                OutcomeView::Failed => probe_from(inst, platform, (index + 1) as nat),
                _ => fail(ExecutionError::UnexpectedOutcome),
            }
        },
        _ => common_next(stage, outcome),
    }
}

/// The step of `inst` after the host observed `outcome` for the effect
/// that was asked for at `stage`.
pub open spec fn next_step(
    inst: InstructionsView,
    host: HostView,
    stage: Stage,
    outcome: OutcomeView,
) -> StepView {
    match inst {
        InstructionsView::DownloadAndExec { url, silent, custom_args } => installer_next(
            url,
            silent,
            custom_args,
            host,
            stage,
            outcome,
        ),
        InstructionsView::Assert { expect, .. } => match stage {
            Stage::OutputChecked => match outcome {
                OutcomeView::Captured { success, code, stdout } => if !success {
                    fail(ExecutionError::ProcessExitNonZero { code })
                } else if contains_text(stdout, expect) {
                    succeed()
                } else {
                    fail(ExecutionError::AssertionMismatch)
                },
                OutcomeView::Failed => fail(ExecutionError::ProcessExitNonZero { code: None }),
                _ => fail(ExecutionError::UnexpectedOutcome),
            },
            _ => common_next(stage, outcome),
        },
        InstructionsView::ExtractArchive { archive_path, destination } => match stage {
            Stage::DestinationReady => match outcome {
                OutcomeView::Done => match archive_format_of(archive_path) {
                    Some(format) => perform(
                        EffectView::Spawn {
                            argv: extract_argv(format, archive_path, destination),
                        },
                        Stage::ExitIgnored,
                    ),
                    None => fail(ExecutionError::UnsupportedArchiveFormat),
                },
                OutcomeView::Failed => fail(ExecutionError::Io),
                _ => fail(ExecutionError::UnexpectedOutcome),
            },
            _ => common_next(stage, outcome),
        },
        InstructionsView::CreateShortcut { name, .. } => match stage {
            Stage::ShortcutWritten => match outcome {
                OutcomeView::Done => match host.home {
                    Some(home) => perform(
                        EffectView::Spawn { argv: seq!["chmod"@, "+x"@, desktop_file(home, name)] },
                        Stage::ExitIgnored,
                    ),
                    None => fail(ExecutionError::MissingEnvironment),
                },
                OutcomeView::Failed => fail(ExecutionError::Io),
                _ => fail(ExecutionError::UnexpectedOutcome),
            },
            _ => common_next(stage, outcome),
        },
        InstructionsView::WaitForCondition { check_command, timeout_secs } => match stage {
            Stage::TimerStarted => match outcome {
                OutcomeView::Time { secs } => poll_or_time_out(
                    check_command,
                    timeout_secs,
                    secs,
                    secs,
                ),
                OutcomeView::Failed => fail(ExecutionError::Io),
                _ => fail(ExecutionError::UnexpectedOutcome),
            },
            Stage::Polled { started } => match outcome {
                OutcomeView::Exited { success, .. } => if success {
                    succeed()
                } else {
                    perform(EffectView::Sleep { secs: 1 }, Stage::Paused { started })
                },
                OutcomeView::Failed => perform(
                    EffectView::Sleep { secs: 1 },
                    Stage::Paused { started },
                ),
                _ => fail(ExecutionError::UnexpectedOutcome),
            },
            Stage::Paused { started } => perform(
                EffectView::ReadMonotonicClock,
                Stage::Clocked { started },
            ),
            Stage::Clocked { started } => match outcome {
                OutcomeView::Time { secs } => poll_or_time_out(
                    check_command,
                    timeout_secs,
                    started,
                    secs,
                ),
                OutcomeView::Failed => fail(ExecutionError::Io),
                _ => fail(ExecutionError::UnexpectedOutcome),
            },
            _ => common_next(stage, outcome),
        },
        InstructionsView::InstallApplication { .. } => manager_next(
            inst,
            host.platform,
            stage,
            outcome,
        ),
        InstructionsView::InstallPackage { .. } => manager_next(
            inst,
            host.platform,
            stage,
            outcome,
        ),
        InstructionsView::RequestSudo { .. } => match stage {
            Stage::SudoAnnounced => match host.platform {
                Platform::Unix => perform(
                    EffectView::Spawn { argv: seq!["sudo"@, "-v"@] },
                    Stage::ExitIgnored,
                ),
                Platform::Windows => perform(
                    report("Please ensure you are running as Administrator or have UAC enabled"@),
                    Stage::Finished,
                ),
            },
            _ => common_next(stage, outcome),
        },
        InstructionsView::RestartService { service_name } => match stage {
            Stage::ServiceStopped => match outcome {
                OutcomeView::Exited { .. } => perform(
                    EffectView::Sleep { secs: 2 },
                    Stage::ServicePaused,
                ),
                OutcomeView::Failed => fail(ExecutionError::Io),
                _ => fail(ExecutionError::UnexpectedOutcome),
            },
            Stage::ServicePaused => perform(
                EffectView::Spawn { argv: seq!["sc"@, "start"@, service_name] },
                Stage::ExitIgnored,
            ),
            Stage::SystemdProbed => if !is_command_outcome(outcome) {
                fail(ExecutionError::UnexpectedOutcome)
            } else if ran_with_success(outcome) {
                perform(
                    EffectView::Spawn { argv: seq!["systemctl"@, "restart"@, service_name] },
                    Stage::ExitIgnored,
                )
            } else {
                perform(
                    EffectView::Capture { argv: seq!["service"@, "--version"@] },
                    Stage::SysvProbed,
                )
            },
            Stage::SysvProbed => if !is_command_outcome(outcome) {
                fail(ExecutionError::UnexpectedOutcome)
            } else if ran_with_success(outcome) {
                perform(
                    EffectView::Spawn { argv: seq!["service"@, service_name, "restart"@] },
                    Stage::ExitIgnored,
                )
            } else {
                fail(ExecutionError::NoServiceManagerAvailable)
            },
            _ => common_next(stage, outcome),
        },
        InstructionsView::BackupFile { path } => match stage {
            Stage::BackupProbed => match outcome {
                OutcomeView::Exists { exists } => if exists {
                    perform(EffectView::ReadWallClock, Stage::BackupTimed)
                } else {
                    succeed()
                },
                _ => fail(ExecutionError::UnexpectedOutcome),
            },
            Stage::BackupTimed => match outcome {
                OutcomeView::Time { secs } => perform(
                    EffectView::CopyFile { from: path, to: backup_path(path, secs) },
                    Stage::BackupCopied { stamp: secs },
                ),
                OutcomeView::Failed => fail(ExecutionError::Io),
                _ => fail(ExecutionError::UnexpectedOutcome),
            },
            Stage::BackupCopied { stamp } => match outcome {
                OutcomeView::Done => perform(
                    report("Backed up "@ + path + " to "@ + backup_path(path, stamp)),
                    Stage::Finished,
                ),
                OutcomeView::Failed => fail(ExecutionError::Io),
                _ => fail(ExecutionError::UnexpectedOutcome),
            },
            _ => common_next(stage, outcome),
        },
        InstructionsView::EditFile { path, find, replace } => match stage {
            Stage::FileRead => match outcome {
                OutcomeView::Content { text } => perform(
                    EffectView::WriteFile { path, content: replaced(text, find, replace) },
                    Stage::Completed,
                ),
                OutcomeView::Failed => fail(ExecutionError::Io),
                _ => fail(ExecutionError::UnexpectedOutcome),
            },
            _ => common_next(stage, outcome),
        },
        _ => common_next(stage, outcome),
    }
}

/// The steps of a run that continues from `step` while the host answers
/// each effect with the next of `outcomes`: the run ends with the step that
/// finishes the instruction, or with the effect that no outcome is left for.
pub open spec fn steps_from(
    inst: InstructionsView,
    host: HostView,
    step: StepView,
    outcomes: Seq<OutcomeView>,
) -> Seq<StepView>
    decreases outcomes.len(),
{
    match step {
        StepView::Finish { .. } => seq![step],
        StepView::Perform { then, .. } => if outcomes.len() == 0 {
            seq![step]
        } else {
            seq![step] + steps_from(
                inst,
                host,
                next_step(inst, host, then, outcomes[0]),
                outcomes.skip(1),
            )
        },
    }
}

/// The steps of a run of `inst` from its start.
pub open spec fn run_steps(
    inst: InstructionsView,
    dry_run: bool,
    host: HostView,
    outcomes: Seq<OutcomeView>,
) -> Seq<StepView> {
    steps_from(inst, host, first_step(inst, dry_run, host), outcomes)
}

/// Whether `step` leaves the machine alone: it asks for nothing but a
/// report, or it finishes with success.
pub open spec fn is_harmless(step: StepView) -> bool {
    match step {
        StepView::Perform { effect, .. } => effect.is_report() && !effect.is_network_call()
            && !effect.is_process_spawn() && !effect.is_filesystem_write(),
        StepView::Finish { result } => result is Ok,
    }
}

/// Once nothing is left to do, every instruction succeeds, whatever the
/// host reports.
pub proof fn lemma_finished_succeeds(inst: InstructionsView, host: HostView, outcome: OutcomeView)
    ensures
        next_step(inst, host, Stage::Finished, outcome) == succeed(),
{
}

/// A dry run is pure. Whatever the instruction, the host and the host's
/// answers: the run consists of the report of what the instruction would
/// do, followed by success. No step asks for a network call, a process or
/// a change to the file system.
pub proof fn lemma_dry_run_is_pure(
    inst: InstructionsView,
    host: HostView,
    outcomes: Seq<OutcomeView>,
)
    ensures
        run_steps(inst, true, host, outcomes) == if outcomes.len() == 0 {
            seq![perform(report(dry_run_text(inst, host)), Stage::Finished)]
        } else {
            seq![perform(report(dry_run_text(inst, host)), Stage::Finished), succeed()]
        },
        forall|i: int|
            0 <= i < run_steps(inst, true, host, outcomes).len() ==> is_harmless(
                #[trigger] run_steps(inst, true, host, outcomes)[i],
            ),
{
    let first = perform(report(dry_run_text(inst, host)), Stage::Finished);
    if outcomes.len() > 0 {
        lemma_finished_succeeds(inst, host, outcomes[0]);
        assert(steps_from(inst, host, succeed(), outcomes.skip(1)) == seq![succeed()]);
        assert(run_steps(inst, true, host, outcomes) =~= seq![first, succeed()]);
    }
}

/// Whether `stage` is a stage of a downloaded installer at which its
/// file has not been dealt with yet.
pub open spec fn installer_is_running(stage: Stage) -> bool {
    stage is InstallerFetched || stage is InstallerRan || stage is SilentRetried || stage is MsiRan
        || stage is BinaryRan
}

/// A downloaded installer is deleted however its execution goes. While the
/// installer is being fetched and run, every answer of the host of the
/// expected kind leads to another run of the installer or to the look for
/// its file; no instruction ends in between. Where the file is found, it
/// is deleted, and the instruction ends with the result of the execution.
pub proof fn lemma_installer_is_cleaned_up(
    url: Seq<char>,
    silent: bool,
    custom_args: Option<Seq<Seq<char>>>,
    host: HostView,
    stage: Stage,
    outcome: OutcomeView,
    result: Result<(), ExecutionError>,
)
    requires
        installer_is_running(stage),
    ensures
        ({
            let next = installer_next(url, silent, custom_args, host, stage, outcome);
            ||| next matches StepView::Perform { effect, then } && effect is Spawn
                && installer_is_running(then)
            ||| next matches StepView::Perform { effect, then } && effect
                == (EffectView::PathExists { path: installer_path(url, host) })
                && then is CleanupProbed
            ||| next == fail(ExecutionError::UnexpectedOutcome)
        }),
        installer_next(
            url,
            silent,
            custom_args,
            host,
            Stage::CleanupProbed { result },
            OutcomeView::Exists { exists: true },
        ) == perform(
            EffectView::RemoveFile { path: installer_path(url, host) },
            Stage::CleanupDone { result },
        ),
        installer_next(
            url,
            silent,
            custom_args,
            host,
            Stage::CleanupProbed { result },
            OutcomeView::Exists { exists: false },
        ) == (StepView::Finish { result }),
        installer_next(
            url,
            silent,
            custom_args,
            host,
            Stage::CleanupDone { result },
            OutcomeView::Done,
        ) == (StepView::Finish { result }),
{
}

/// A package installation fails only if no manager succeeds. At manager
/// number `index`, whatever the host reports of its probe or of its
/// installation: the instruction succeeds, or this manager installs (after
/// a probe that succeeded, and only then), or the next manager is probed,
/// or, where this was the last manager, the instruction fails for want of
/// a package manager. No other error ends the instruction, and no manager
/// is gone back to.
pub proof fn lemma_managers_are_tried_in_turn(
    inst: InstructionsView,
    platform: Platform,
    index: usize,
    outcome: OutcomeView,
)
    requires
        inst is InstallApplication || inst is InstallPackage,
        index < manager_count(inst, platform),
        is_command_outcome(outcome),
    ensures
        manager_next(inst, platform, Stage::ManagerProbed { index }, outcome) == if outcome
            matches OutcomeView::Captured { success: true, .. } {
            perform(
                EffectView::Spawn { argv: manager_install(inst, platform, index as nat) },
                Stage::ManagerTried { index },
            )
        } else if outcome is Exited {
            fail(ExecutionError::UnexpectedOutcome)
        } else {
            probe_from(inst, platform, (index + 1) as nat)
        },
        manager_next(inst, platform, Stage::ManagerTried { index }, outcome) == if outcome
            matches OutcomeView::Exited { success: true, .. } {
            succeed()
        } else if outcome is Captured {
            fail(ExecutionError::UnexpectedOutcome)
        } else {
            probe_from(inst, platform, (index + 1) as nat)
        },
        index + 1 == manager_count(inst, platform) ==> probe_from(
            inst,
            platform,
            (index + 1) as nat,
        ) == fail(ExecutionError::NoPackageManagerAvailable),
        index + 1 < manager_count(inst, platform) ==> probe_from(
            inst,
            platform,
            (index + 1) as nat,
        ) == perform(
            EffectView::Capture { argv: manager_probe(inst, platform, (index + 1) as nat) },
            Stage::ManagerProbed { index: (index + 1) as usize },
        ),
{
}

} // verus!
