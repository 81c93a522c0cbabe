use projektwoche_setup::logger::LogLevel;
use projektwoche_setup::manager::effects::{
    Effect, ExecutionError, Host, Outcome, Platform, Stage, Step,
};
use projektwoche_setup::manager::instructions::{AnyInstruction, Instruction, Instructions};

fn text(s: &str) -> String {
    s.to_string()
}

fn argv(words: &[&str]) -> Vec<String> {
    words.iter().map(|w| w.to_string()).collect()
}

fn unix() -> Host {
    Host {
        platform: Platform::Unix,
        temp_dir: text("/tmp"),
        home: Some(text("/home/dev")),
        user_profile: None,
    }
}

fn windows() -> Host {
    Host {
        platform: Platform::Windows,
        temp_dir: text("C:\\Temp"),
        home: None,
        user_profile: Some(text("C:\\Users\\dev")),
    }
}

fn exited(success: bool, code: i32) -> Outcome {
    Outcome::Exited { success, code: Some(code) }
}

fn captured(success: bool, stdout: &str) -> Outcome {
    Outcome::Captured { success, code: Some(if success { 0 } else { 1 }), stdout: text(stdout) }
}

fn info(s: &str) -> Effect {
    Effect::Log { level: LogLevel::Info, text: text(s) }
}

fn spawn(words: &[&str]) -> Effect {
    Effect::Spawn { argv: argv(words) }
}

fn capture(words: &[&str]) -> Effect {
    Effect::Capture { argv: argv(words) }
}

/// Runs `inst`, answering its effects with `script` in order.
fn drive(
    inst: &Instructions,
    dry_run: bool,
    host: &Host,
    script: Vec<Outcome>,
) -> (Vec<Effect>, Option<Result<(), ExecutionError>>) {
    let mut effects = Vec::new();
    let mut answers = script.into_iter();
    let mut step = inst.run(dry_run, host);
    loop {
        match step {
            Step::Finish { result } => return (effects, Some(result)),
            Step::Perform { effect, then } => {
                effects.push(effect);
                match answers.next() {
                    Some(outcome) => step = inst.resume(host, then, &outcome),
                    None => return (effects, None),
                }
            }
        }
    }
}

fn all_kinds() -> Vec<(Instructions, &'static str)> {
    vec![
        (
            Instruction::new("a").download_and_exec("https://example.org/get/tool"),
            "Dry run: would download https://example.org/get/tool to /tmp/tool",
        ),
        (Instruction::new("b").cmd("npm  install -g yarn"), "Dry run: would execute command: npm install -g yarn"),
        (
            Instruction::new("c").download_to("https://example.org/f", "/opt/f"),
            "Dry run: would download https://example.org/f to /opt/f",
        ),
        (
            Instruction::new("d").assert_output("git --version", "git version"),
            "Dry run: expect the result of: git --version to be git version",
        ),
        (
            Instruction::new("e").extract_archive("x.tar.gz", "/dest"),
            "Dry run: would extract x.tar.gz to /dest",
        ),
        (
            Instruction::new("f").add_env_var("EDITOR", "vim"),
            "Dry run: would set environment variable EDITOR=vim",
        ),
        (
            Instruction::new("g").create_shortcut("Code", "/usr/bin/code", Some("code.png")),
            "Dry run: would create shortcut 'Code' pointing to '/usr/bin/code' with icon 'code.png'",
        ),
        (
            Instruction::new("h").wait_for_condition("pg_isready -q", 30),
            "Dry run: would wait up to 30 seconds for command 'pg_isready -q' to succeed",
        ),
        (
            Instruction::new("i").install_application("git"),
            "Dry run: would install package 'git'",
        ),
        (
            Instruction::new("j").install_package("typescript"),
            "Dry run: would install package 'typescript' using language package manager",
        ),
        (
            Instruction::new("k").clone_repository("https://example.org/r.git", None),
            "Dry run: would clone repository 'https://example.org/r.git' to current directory",
        ),
        (
            Instruction::new("l").request_sudo("install packages"),
            "Dry run: would request administrator privileges: install packages",
        ),
        (
            Instruction::new("m").restart_service("nginx"),
            "Dry run: would restart service 'nginx'",
        ),
        (Instruction::new("n").backup_file("/etc/hosts"), "Dry run: would backup file '/etc/hosts'"),
        (
            Instruction::new("o").edit_file("/etc/hosts", "old", "new"),
            "Dry run: would edit file '/etc/hosts' replacing 'old' with 'new'",
        ),
    ]
}

#[test]
fn dry_run_reports_and_succeeds_for_every_kind() {
    for (inst, expected) in all_kinds() {
        let (effects, result) = drive(&inst, true, &unix(), vec![Outcome::Done]);
        assert_eq!(effects, vec![info(expected)]);
        assert_eq!(result, Some(Ok(())));
    }
}

#[test]
fn dry_run_succeeds_whatever_the_host_answers() {
    for (inst, _) in all_kinds() {
        for answer in vec![Outcome::Failed, exited(false, 1), Outcome::Time { secs: 9 }] {
            let (effects, result) = drive(&inst, true, &windows(), vec![answer]);
            assert_eq!(effects.len(), 1);
            assert!(matches!(effects[0], Effect::Log { .. }));
            assert_eq!(result, Some(Ok(())));
        }
    }
}

#[test]
fn dry_run_of_an_empty_command_succeeds() {
    let inst = Instruction::new("nothing").cmd("   ");
    let (effects, result) = drive(&inst, true, &unix(), vec![Outcome::Done]);
    assert_eq!(effects, vec![info("Dry run: would execute command: ")]);
    assert_eq!(result, Some(Ok(())));
}

#[test]
fn dry_run_of_an_unsupported_archive_succeeds() {
    let inst = Instruction::new("rar").extract_archive("x.rar", "/dest");
    let (effects, result) = drive(&inst, true, &unix(), vec![Outcome::Done]);
    assert_eq!(effects, vec![info("Dry run: would extract x.rar to /dest")]);
    assert_eq!(result, Some(Ok(())));
}

#[test]
fn builder_without_instruction_succeeds_at_once() {
    let step = Instruction::new("nothing chosen").execute(false, &unix());
    assert_eq!(step, Step::Finish { result: Ok(()) });
    let step = Instruction::new("nothing chosen").execute(true, &unix());
    assert_eq!(step, Step::Finish { result: Ok(()) });
}

#[test]
fn run_spawns_the_split_command() {
    let inst = Instruction::new("yarn").cmd("npm install\t-g  yarn");
    let (effects, result) = drive(&inst, false, &unix(), vec![exited(true, 0)]);
    assert_eq!(effects, vec![spawn(&["npm", "install", "-g", "yarn"])]);
    assert_eq!(result, Some(Ok(())));
}

#[test]
fn run_fails_on_non_zero_exit() {
    let inst = Instruction::new("false").cmd("false");
    let (_, result) = drive(&inst, false, &unix(), vec![exited(false, 3)]);
    assert_eq!(result, Some(Err(ExecutionError::ProcessExitNonZero { code: Some(3) })));
}

#[test]
fn run_fails_when_the_process_cannot_start() {
    let inst = Instruction::new("missing").cmd("no-such-program");
    let (_, result) = drive(&inst, false, &unix(), vec![Outcome::Failed]);
    assert_eq!(result, Some(Err(ExecutionError::ProcessExitNonZero { code: None })));
}

#[test]
fn run_rejects_an_empty_command() {
    let inst = Instruction::new("nothing").cmd("");
    let (effects, result) = drive(&inst, false, &unix(), vec![]);
    assert!(effects.is_empty());
    assert_eq!(result, Some(Err(ExecutionError::EmptyCommand)));
}

#[test]
fn run_rejects_an_outcome_of_the_wrong_kind() {
    let inst = Instruction::new("ls").cmd("ls");
    let (_, result) = drive(&inst, false, &unix(), vec![Outcome::Exists { exists: true }]);
    assert_eq!(result, Some(Err(ExecutionError::UnexpectedOutcome)));
}

#[test]
fn download_to_fetches_into_the_path() {
    let inst = Instruction::new("fetch").download_to("https://example.org/f", "/opt/f");
    let (effects, result) = drive(&inst, false, &unix(), vec![Outcome::Done]);
    assert_eq!(
        effects,
        vec![Effect::Download { url: text("https://example.org/f"), dest: text("/opt/f") }]
    );
    assert_eq!(result, Some(Ok(())));
}

#[test]
fn download_to_reports_a_failed_download() {
    let inst = Instruction::new("fetch").download_to("https://example.org/f", "/opt/f");
    let (_, result) = drive(&inst, false, &unix(), vec![Outcome::Failed]);
    assert_eq!(result, Some(Err(ExecutionError::DownloadFailed)));
}

#[test]
fn assert_succeeds_when_the_output_holds_the_text() {
    let inst = Instruction::new("git").assert_output("git --version", "git version");
    let (effects, result) =
        drive(&inst, false, &unix(), vec![captured(true, "git version 2.43.0\n")]);
    assert_eq!(effects, vec![capture(&["git", "--version"])]);
    assert_eq!(result, Some(Ok(())));
}

#[test]
fn assert_fails_when_the_output_lacks_the_text() {
    let inst = Instruction::new("git").assert_output("git --version", "git version");
    let (_, result) = drive(&inst, false, &unix(), vec![captured(true, "hg version 6\n")]);
    assert_eq!(result, Some(Err(ExecutionError::AssertionMismatch)));
}

#[test]
fn assert_fails_on_non_zero_exit_even_with_the_text() {
    let inst = Instruction::new("git").assert_output("git --version", "git version");
    let (_, result) = drive(&inst, false, &unix(), vec![captured(false, "git version 2\n")]);
    assert_eq!(result, Some(Err(ExecutionError::ProcessExitNonZero { code: Some(1) })));
}

#[test]
fn assert_on_a_host_without_the_program_fails() {
    let inst = Instruction::new("git").assert_output("git --version", "git version");
    let (effects, result) = drive(&inst, false, &unix(), vec![Outcome::Failed]);
    assert_eq!(effects, vec![capture(&["git", "--version"])]);
    assert_eq!(result, Some(Err(ExecutionError::ProcessExitNonZero { code: None })));
}

#[test]
fn assert_with_an_empty_expectation_accepts_any_output() {
    let inst = Instruction::new("any").assert_output("true", "");
    let (_, result) = drive(&inst, false, &unix(), vec![captured(true, "")]);
    assert_eq!(result, Some(Ok(())));
}

#[test]
fn assert_rejects_an_empty_command() {
    let inst = Instruction::new("none").assert_output(" ", "x");
    let (effects, result) = drive(&inst, false, &unix(), vec![]);
    assert!(effects.is_empty());
    assert_eq!(result, Some(Err(ExecutionError::EmptyCommand)));
}

#[test]
fn extract_tar_gz_creates_the_destination_and_runs_tar() {
    let inst = Instruction::new("unpack").extract_archive("x.tar.gz", "/dest");
    let (effects, result) = drive(&inst, false, &unix(), vec![Outcome::Done, exited(true, 0)]);
    assert_eq!(
        effects,
        vec![
            Effect::CreateDirAll { path: text("/dest") },
            spawn(&["tar", "-xzf", "x.tar.gz", "-C", "/dest"]),
        ]
    );
    assert_eq!(result, Some(Ok(())));
}

#[test]
fn extract_picks_the_tool_by_extension() {
    let cases: Vec<(&'static str, Vec<&str>)> = vec![
        ("a.zip", vec!["unzip", "-o", "a.zip", "-d", "/d"]),
        ("a.tgz", vec!["tar", "-xzf", "a.tgz", "-C", "/d"]),
        ("a.tar.bz2", vec!["tar", "-xjf", "a.tar.bz2", "-C", "/d"]),
        ("a.tbz2", vec!["tar", "-xjf", "a.tbz2", "-C", "/d"]),
        ("a.tar.xz", vec!["tar", "-xJf", "a.tar.xz", "-C", "/d"]),
        ("dir.d/A.TXZ", vec!["tar", "-xJf", "dir.d/A.TXZ", "-C", "/d"]),
    ];
    for (archive, expected) in cases {
        let inst = Instruction::new("unpack").extract_archive(archive, "/d");
        let (effects, result) = drive(&inst, false, &unix(), vec![Outcome::Done, exited(true, 0)]);
        assert_eq!(effects[1], spawn(&expected));
        assert_eq!(result, Some(Ok(())));
    }
}

#[test]
fn extract_rar_fails_without_touching_the_file_system() {
    let inst = Instruction::new("unpack").extract_archive("x.rar", "/dest");
    let (effects, result) = drive(&inst, false, &unix(), vec![]);
    assert!(effects.is_empty());
    assert_eq!(result, Some(Err(ExecutionError::UnsupportedArchiveFormat)));
}

#[test]
fn extract_without_extension_fails() {
    for archive in ["archive", "dir.d/archive", ".zip"] {
        let inst = Instruction::new("unpack").extract_archive(archive, "/dest");
        let (effects, result) = drive(&inst, false, &unix(), vec![]);
        assert!(effects.is_empty());
        assert_eq!(result, Some(Err(ExecutionError::UnsupportedArchiveFormat)));
    }
}

#[test]
fn extract_fails_when_the_destination_cannot_be_created() {
    let inst = Instruction::new("unpack").extract_archive("x.zip", "/dest");
    let (effects, result) = drive(&inst, false, &unix(), vec![Outcome::Failed]);
    assert_eq!(effects.len(), 1);
    assert_eq!(result, Some(Err(ExecutionError::Io)));
}

#[test]
fn extract_ignores_the_status_of_the_tool() {
    let inst = Instruction::new("unpack").extract_archive("x.zip", "/dest");
    let (_, result) = drive(&inst, false, &unix(), vec![Outcome::Done, exited(false, 2)]);
    assert_eq!(result, Some(Ok(())));
    let (_, result) = drive(&inst, false, &unix(), vec![Outcome::Done, Outcome::Failed]);
    assert_eq!(result, Some(Err(ExecutionError::Io)));
}

#[test]
fn add_env_var_appends_to_the_shell_profile_on_unix() {
    let inst = Instruction::new("env").add_env_var("EDITOR", "vim");
    let (effects, result) = drive(&inst, false, &unix(), vec![Outcome::Done]);
    assert_eq!(
        effects,
        vec![Effect::AppendFile {
            path: text("/home/dev/.bashrc"),
            content: text("export EDITOR=\"vim\"\n"),
        }]
    );
    assert_eq!(result, Some(Ok(())));
}

#[test]
fn add_env_var_uses_setx_on_windows() {
    let inst = Instruction::new("env").add_env_var("EDITOR", "vim");
    let (effects, result) = drive(&inst, false, &windows(), vec![exited(false, 1)]);
    assert_eq!(effects, vec![spawn(&["setx", "EDITOR", "vim"])]);
    assert_eq!(result, Some(Ok(())));
}

#[test]
fn add_env_var_needs_the_home_directory() {
    let mut host = unix();
    host.home = None;
    let inst = Instruction::new("env").add_env_var("EDITOR", "vim");
    let (effects, result) = drive(&inst, false, &host, vec![]);
    assert!(effects.is_empty());
    assert_eq!(result, Some(Err(ExecutionError::MissingEnvironment)));
}

#[test]
fn add_env_var_reports_a_failed_write() {
    let inst = Instruction::new("env").add_env_var("EDITOR", "vim");
    let (_, result) = drive(&inst, false, &unix(), vec![Outcome::Failed]);
    assert_eq!(result, Some(Err(ExecutionError::Io)));
}

#[test]
fn create_shortcut_writes_a_desktop_entry_on_unix() {
    let inst = Instruction::new("sc").create_shortcut("Code", "/usr/bin/code", Some("code.png"));
    let (effects, result) = drive(&inst, false, &unix(), vec![Outcome::Done, exited(true, 0)]);
    assert_eq!(
        effects,
        vec![
            Effect::WriteFile {
                path: text("/home/dev/Desktop/Code.desktop"),
                content: text(
                    "[Desktop Entry]\nVersion=1.0\nType=Application\nName=Code\nExec=/usr/bin/code\nIcon=code.png\nTerminal=false\n"
                ),
            },
            spawn(&["chmod", "+x", "/home/dev/Desktop/Code.desktop"]),
        ]
    );
    assert_eq!(result, Some(Ok(())));
}

#[test]
fn create_shortcut_without_icon_leaves_the_icon_line_out() {
    let inst = Instruction::new("sc").create_shortcut("Code", "/usr/bin/code", None);
    let (effects, _) = drive(&inst, false, &unix(), vec![Outcome::Done, exited(true, 0)]);
    assert_eq!(
        effects[0],
        Effect::WriteFile {
            path: text("/home/dev/Desktop/Code.desktop"),
            content: text(
                "[Desktop Entry]\nVersion=1.0\nType=Application\nName=Code\nExec=/usr/bin/code\nTerminal=false\n"
            ),
        }
    );
}

#[test]
fn create_shortcut_runs_a_script_on_windows() {
    let inst = Instruction::new("sc").create_shortcut("Code", "C:\\code.exe", None);
    let (effects, result) = drive(&inst, false, &windows(), vec![exited(true, 0)]);
    assert_eq!(
        effects,
        vec![spawn(&[
            "powershell",
            "-Command",
            "$WshShell = New-Object -comObject WScript.Shell; $Shortcut = $WshShell.CreateShortcut(\"C:\\Users\\dev\\Desktop\\Code.lnk\"); $Shortcut.TargetPath = \"C:\\code.exe\"; $Shortcut.Save()",
        ])]
    );
    assert_eq!(result, Some(Ok(())));
}

#[test]
fn create_shortcut_needs_the_profile_directory_on_windows() {
    let mut host = windows();
    host.user_profile = None;
    let inst = Instruction::new("sc").create_shortcut("Code", "C:\\code.exe", None);
    let (effects, result) = drive(&inst, false, &host, vec![]);
    assert!(effects.is_empty());
    assert_eq!(result, Some(Err(ExecutionError::MissingEnvironment)));
}

#[test]
fn wait_succeeds_as_soon_as_the_command_does() {
    let inst = Instruction::new("wait").wait_for_condition("pg_isready", 10);
    let (effects, result) = drive(
        &inst,
        false,
        &unix(),
        vec![
            Outcome::Time { secs: 100 },
            exited(false, 1),
            Outcome::Done,
            Outcome::Time { secs: 101 },
            exited(true, 0),
        ],
    );
    assert_eq!(
        effects,
        vec![
            Effect::ReadMonotonicClock,
            spawn(&["pg_isready"]),
            Effect::Sleep { secs: 1 },
            Effect::ReadMonotonicClock,
            spawn(&["pg_isready"]),
        ]
    );
    assert_eq!(result, Some(Ok(())));
}

#[test]
fn wait_times_out() {
    let inst = Instruction::new("wait").wait_for_condition("pg_isready", 2);
    let (effects, result) = drive(
        &inst,
        false,
        &unix(),
        vec![
            Outcome::Time { secs: 100 },
            Outcome::Failed,
            Outcome::Done,
            Outcome::Time { secs: 101 },
            exited(false, 1),
            Outcome::Done,
            Outcome::Time { secs: 102 },
        ],
    );
    assert_eq!(effects.len(), 7);
    assert_eq!(result, Some(Err(ExecutionError::ConditionTimeout)));
}

#[test]
fn wait_with_zero_timeout_never_polls() {
    let inst = Instruction::new("wait").wait_for_condition("pg_isready", 0);
    let (effects, result) = drive(&inst, false, &unix(), vec![Outcome::Time { secs: 5 }]);
    assert_eq!(effects, vec![Effect::ReadMonotonicClock]);
    assert_eq!(result, Some(Err(ExecutionError::ConditionTimeout)));
}

#[test]
fn wait_rejects_an_empty_command() {
    let inst = Instruction::new("wait").wait_for_condition("", 5);
    let (_, result) = drive(&inst, false, &unix(), vec![Outcome::Time { secs: 5 }]);
    assert_eq!(result, Some(Err(ExecutionError::EmptyCommand)));
}

#[test]
fn wait_resumes_with_the_first_clock_reading() {
    let inst = Instruction::new("wait").wait_for_condition("ready", 10);
    let step = inst.resume(&unix(), Stage::Clocked { started: 100 }, &Outcome::Time { secs: 109 });
    assert_eq!(
        step,
        Step::Perform { effect: spawn(&["ready"]), then: Stage::Polled { started: 100 } }
    );
    let step = inst.resume(&unix(), Stage::Clocked { started: 100 }, &Outcome::Time { secs: 110 });
    assert_eq!(step, Step::Finish { result: Err(ExecutionError::ConditionTimeout) });
    let step = inst.resume(&unix(), Stage::Clocked { started: 100 }, &Outcome::Time { secs: 50 });
    assert_eq!(
        step,
        Step::Perform { effect: spawn(&["ready"]), then: Stage::Polled { started: 100 } }
    );
}

#[test]
fn clone_repository_runs_git() {
    let inst = Instruction::new("clone").clone_repository("https://example.org/r.git", Some("src"));
    let (effects, result) = drive(&inst, false, &unix(), vec![exited(true, 0)]);
    assert_eq!(effects, vec![spawn(&["git", "clone", "https://example.org/r.git", "src"])]);
    assert_eq!(result, Some(Ok(())));
    let inst = Instruction::new("clone").clone_repository("https://example.org/r.git", None);
    let (effects, result) = drive(&inst, false, &unix(), vec![exited(false, 128)]);
    assert_eq!(effects, vec![spawn(&["git", "clone", "https://example.org/r.git"])]);
    assert_eq!(result, Some(Err(ExecutionError::ProcessExitNonZero { code: Some(128) })));
}

#[test]
fn request_sudo_announces_and_validates_on_unix() {
    let inst = Instruction::new("sudo").request_sudo("install packages");
    let (effects, result) = drive(&inst, false, &unix(), vec![Outcome::Done, exited(false, 1)]);
    assert_eq!(
        effects,
        vec![info("Administrator privileges required: install packages"), spawn(&["sudo", "-v"])]
    );
    assert_eq!(result, Some(Ok(())));
}

#[test]
fn request_sudo_only_reminds_on_windows() {
    let inst = Instruction::new("sudo").request_sudo("install packages");
    let (effects, result) = drive(&inst, false, &windows(), vec![Outcome::Done, Outcome::Done]);
    assert_eq!(
        effects,
        vec![
            info("Administrator privileges required: install packages"),
            info("Please ensure you are running as Administrator or have UAC enabled"),
        ]
    );
    assert_eq!(result, Some(Ok(())));
}

#[test]
fn restart_service_stops_and_starts_on_windows() {
    let inst = Instruction::new("svc").restart_service("Spooler");
    let (effects, result) =
        drive(&inst, false, &windows(), vec![exited(true, 0), Outcome::Done, exited(true, 0)]);
    assert_eq!(
        effects,
        vec![
            spawn(&["sc", "stop", "Spooler"]),
            Effect::Sleep { secs: 2 },
            spawn(&["sc", "start", "Spooler"]),
        ]
    );
    assert_eq!(result, Some(Ok(())));
}

#[test]
fn restart_service_prefers_systemctl() {
    let inst = Instruction::new("svc").restart_service("nginx");
    let (effects, result) =
        drive(&inst, false, &unix(), vec![captured(true, "systemd 255"), exited(true, 0)]);
    assert_eq!(
        effects,
        vec![capture(&["systemctl", "--version"]), spawn(&["systemctl", "restart", "nginx"])]
    );
    assert_eq!(result, Some(Ok(())));
}

#[test]
fn restart_service_falls_back_to_service() {
    let inst = Instruction::new("svc").restart_service("nginx");
    let (effects, result) = drive(
        &inst,
        false,
        &unix(),
        vec![Outcome::Failed, captured(true, "service ver. 1"), exited(true, 0)],
    );
    assert_eq!(
        effects,
        vec![
            capture(&["systemctl", "--version"]),
            capture(&["service", "--version"]),
            spawn(&["service", "nginx", "restart"]),
        ]
    );
    assert_eq!(result, Some(Ok(())));
}

#[test]
fn restart_service_without_service_manager_fails() {
    let inst = Instruction::new("svc").restart_service("nginx");
    let (_, result) =
        drive(&inst, false, &unix(), vec![captured(false, ""), Outcome::Failed]);
    assert_eq!(result, Some(Err(ExecutionError::NoServiceManagerAvailable)));
}

#[test]
fn backup_of_a_missing_file_does_nothing() {
    let inst = Instruction::new("backup").backup_file("/etc/hosts");
    let (effects, result) = drive(&inst, false, &unix(), vec![Outcome::Exists { exists: false }]);
    assert_eq!(effects, vec![Effect::PathExists { path: text("/etc/hosts") }]);
    assert_eq!(result, Some(Ok(())));
}

#[test]
fn backup_copies_to_a_name_with_the_time() {
    let inst = Instruction::new("backup").backup_file("/etc/hosts");
    let (effects, result) = drive(
        &inst,
        false,
        &unix(),
        vec![
            Outcome::Exists { exists: true },
            Outcome::Time { secs: 1700000000 },
            Outcome::Done,
            Outcome::Done,
        ],
    );
    assert_eq!(
        effects,
        vec![
            Effect::PathExists { path: text("/etc/hosts") },
            Effect::ReadWallClock,
            Effect::CopyFile {
                from: text("/etc/hosts"),
                to: text("/etc/hosts.backup.1700000000"),
            },
            info("Backed up /etc/hosts to /etc/hosts.backup.1700000000"),
        ]
    );
    assert_eq!(result, Some(Ok(())));
}

#[test]
fn backup_reports_a_failed_copy() {
    let inst = Instruction::new("backup").backup_file("/etc/hosts");
    let (_, result) = drive(
        &inst,
        false,
        &unix(),
        vec![Outcome::Exists { exists: true }, Outcome::Time { secs: 0 }, Outcome::Failed],
    );
    assert_eq!(result, Some(Err(ExecutionError::Io)));
}

#[test]
fn edit_file_writes_the_replaced_content() {
    let inst = Instruction::new("edit").edit_file("/etc/app.conf", "debug", "info");
    let (effects, result) = drive(
        &inst,
        false,
        &unix(),
        vec![Outcome::Content { text: text("level=debug\nlog=debug.log\n") }, Outcome::Done],
    );
    assert_eq!(
        effects,
        vec![
            Effect::ReadFile { path: text("/etc/app.conf") },
            Effect::WriteFile {
                path: text("/etc/app.conf"),
                content: text("level=info\nlog=info.log\n"),
            },
        ]
    );
    assert_eq!(result, Some(Ok(())));
}

#[test]
fn edit_file_reports_a_file_that_cannot_be_read() {
    let inst = Instruction::new("edit").edit_file("/etc/app.conf", "a", "b");
    let (_, result) = drive(&inst, false, &unix(), vec![Outcome::Failed]);
    assert_eq!(result, Some(Err(ExecutionError::Io)));
}
