use projektwoche_setup::config::machine::{OsCategory, OsMatcher, OsType, OS};
use projektwoche_setup::logger::LogLevel;
use projektwoche_setup::manager::effects::{Effect, ExecutionError, Host, Outcome, Platform};
use projektwoche_setup::manager::instructions::{Instruction, Instructions};
use projektwoche_setup::manager::orchestrator::{Advance, JoinReport, LogLine};
use projektwoche_setup::manager::worker::{Phase, Worker, WorkerExit, WorkerStage, WorkerStep};
use projektwoche_setup::manager::{InstructionMapping, Package, SoftwareBundle};

fn text(s: &str) -> String {
    s.to_string()
}

fn argv(words: &[&str]) -> Vec<String> {
    words.iter().map(|w| w.to_string()).collect()
}

fn host() -> Host {
    Host {
        platform: Platform::Unix,
        temp_dir: text("/tmp"),
        home: Some(text("/home/dev")),
        user_profile: None,
    }
}

fn ubuntu() -> OS {
    OS(OsType::Ubuntu)
}

fn linux() -> OsMatcher {
    OsMatcher::from_category(OsCategory::LinuxBased)
}

fn log(level: LogLevel, s: &str) -> Effect {
    Effect::Log { level, text: text(s) }
}

fn info(s: &str) -> Effect {
    log(LogLevel::Info, s)
}

fn spawn(words: &[&str]) -> Effect {
    Effect::Spawn { argv: argv(words) }
}

fn capture(words: &[&str]) -> Effect {
    Effect::Capture { argv: argv(words) }
}

fn line(level: LogLevel, s: &str) -> LogLine {
    LogLine { level, text: text(s) }
}

fn ok() -> Outcome {
    Outcome::Exited { success: true, code: Some(0) }
}

fn bad() -> Outcome {
    Outcome::Exited { success: false, code: Some(1) }
}

fn said(stdout: &str) -> Outcome {
    Outcome::Captured { success: true, code: Some(0), stdout: text(stdout) }
}

fn check(command: &str, expect: &'static str) -> Instructions {
    Instruction::new("check").assert_output(command, expect)
}

fn cmd(command: &str) -> Instructions {
    Instruction::new("run").cmd(command)
}

/// A host that answers log lines by itself and every other effect from `script`.
fn drive(worker: &Worker, script: Vec<Outcome>) -> (Vec<Effect>, Option<WorkerExit>) {
    let host = host();
    let mut effects = Vec::new();
    let mut answers = script.into_iter();
    let mut step = worker.start();
    loop {
        match step {
            WorkerStep::Finish { exit } => return (effects, Some(exit)),
            WorkerStep::Perform { effect, then } => {
                let outcome = if matches!(effect, Effect::Log { .. }) {
                    Some(Outcome::Done)
                } else {
                    answers.next()
                };
                effects.push(effect);
                match outcome {
                    Some(outcome) => step = worker.resume(&host, then, &outcome),
                    None => return (effects, None),
                }
            }
        }
    }
}

fn package_a() -> Package {
    Package::new("A", "has a prerequisite").add_mapping(
        linux(),
        InstructionMapping::new()
            .add_prerequisite_checks(vec![check("a --version", "a 1")])
            .add_install_instructions(vec![cmd("install-a now")])
            .add_configuration_instructions(vec![cmd("configure-a")]),
    )
}

fn package_b() -> Package {
    Package::new("B", "has no prerequisite").add_mapping(
        linux(),
        InstructionMapping::new()
            .add_install_instructions(vec![cmd("install-b")])
            .add_configuration_instructions(vec![cmd("configure-b one"), cmd("configure-b two")])
            .add_uninstall_instructions(vec![cmd("remove-b")])
            .add_deconfiguration_instructions(vec![cmd("deconfigure-b")]),
    )
}

fn package_w() -> Package {
    Package::new("W", "for Windows only").add_mapping(
        OsMatcher::from_category(OsCategory::Windows),
        InstructionMapping::new().add_install_instructions(vec![cmd("install-w")]),
    )
}

#[test]
fn passing_prerequisite_skips_the_install_instructions() {
    let worker = Worker::new(package_a(), ubuntu(), Phase::Install, false);
    let (effects, exit) = drive(&worker, vec![said("a 1.2")]);
    assert_eq!(
        effects,
        vec![
            info("==> Installing program: A"),
            info("  Checking prerequisites..."),
            capture(&["a", "--version"]),
            info("  Program already installed, skipping installation: A"),
        ]
    );
    assert_eq!(exit, Some(WorkerExit::AlreadyInstalled));
}

#[test]
fn failing_prerequisite_proceeds_to_install() {
    let worker = Worker::new(package_a(), ubuntu(), Phase::Install, false);
    let (effects, exit) = drive(&worker, vec![Outcome::Failed, ok()]);
    assert_eq!(
        effects,
        vec![
            info("==> Installing program: A"),
            info("  Checking prerequisites..."),
            capture(&["a", "--version"]),
            info("  Prerequisites not met, proceeding with installation."),
            spawn(&["install-a", "now"]),
            info("  Command executed successfully."),
        ]
    );
    assert_eq!(exit, Some(WorkerExit::Completed));
}

#[test]
fn any_passing_prerequisite_is_enough() {
    let package = Package::new("P", "two checks").add_mapping(
        linux(),
        InstructionMapping::new()
            .add_prerequisite_checks(vec![check("first-tool -v", "one"), check("second-tool -v", "two")])
            .add_install_instructions(vec![cmd("install-p")]),
    );
    let worker = Worker::new(package, ubuntu(), Phase::Install, false);
    let (effects, exit) = drive(&worker, vec![said("zero"), said("two")]);
    assert_eq!(
        effects,
        vec![
            info("==> Installing program: P"),
            info("  Checking prerequisites..."),
            capture(&["first-tool", "-v"]),
            info("  Prerequisites not met, proceeding with installation."),
            capture(&["second-tool", "-v"]),
            info("  Program already installed, skipping installation: P"),
        ]
    );
    assert_eq!(exit, Some(WorkerExit::AlreadyInstalled));
}

#[test]
fn first_failure_stops_the_list() {
    let worker = Worker::new(package_b(), ubuntu(), Phase::Configure, false);
    let (effects, exit) = drive(&worker, vec![bad()]);
    assert_eq!(
        effects,
        vec![
            info("==> Configuring program: B"),
            spawn(&["configure-b", "one"]),
            log(LogLevel::Error, "  Configuration failed: Command failed with exit code: 1"),
        ]
    );
    assert_eq!(
        exit,
        Some(WorkerExit::Failed { error: ExecutionError::ProcessExitNonZero { code: Some(1) } })
    );
}

#[test]
fn every_phase_runs_its_own_list() {
    let lists: Vec<(Phase, Vec<Effect>)> = vec![
        (
            Phase::Install,
            vec![
                info("==> Installing program: B"),
                spawn(&["install-b"]),
                info("  Command executed successfully."),
            ],
        ),
        (
            Phase::Configure,
            vec![
                info("==> Configuring program: B"),
                spawn(&["configure-b", "one"]),
                info("  Configuration applied successfully."),
                spawn(&["configure-b", "two"]),
                info("  Configuration applied successfully."),
            ],
        ),
        (
            Phase::Deconfigure,
            vec![
                info("==> Deconfiguring program: B"),
                spawn(&["deconfigure-b"]),
                info("  Deconfiguration applied successfully."),
            ],
        ),
        (
            Phase::Uninstall,
            vec![
                info("==> Uninstalling program: B"),
                spawn(&["remove-b"]),
                info("  Uninstallation executed successfully."),
            ],
        ),
    ];
    for (phase, expected) in lists {
        let worker = Worker::new(package_b(), ubuntu(), phase, false);
        let (effects, exit) = drive(&worker, vec![ok(), ok()]);
        assert_eq!(effects, expected);
        assert_eq!(exit, Some(WorkerExit::Completed));
    }
}

#[test]
fn missing_mapping_fails_explicitly() {
    let worker = Worker::new(package_w(), ubuntu(), Phase::Install, false);
    let (effects, exit) = drive(&worker, vec![]);
    assert_eq!(
        effects,
        vec![
            info("==> Installing program: W"),
            log(LogLevel::Error, "  No instructions found for this operating system: W"),
        ]
    );
    assert_eq!(exit, Some(WorkerExit::Failed { error: ExecutionError::MissingOsMapping }));
}

#[test]
fn dry_run_worker_only_logs() {
    let worker = Worker::new(package_b(), ubuntu(), Phase::Configure, true);
    let (effects, exit) = drive(&worker, vec![]);
    assert_eq!(
        effects,
        vec![
            info("==> Configuring program: B"),
            info("Dry run: would execute command: configure-b one"),
            info("  Configuration applied successfully."),
            info("Dry run: would execute command: configure-b two"),
            info("  Configuration applied successfully."),
        ]
    );
    assert_eq!(exit, Some(WorkerExit::Completed));
}

#[test]
fn worker_rejects_a_stage_beyond_its_list() {
    let worker = Worker::new(package_b(), ubuntu(), Phase::Install, false);
    let step = worker.resume(
        &host(),
        WorkerStage::RanNoted { index: 5 },
        &Outcome::Done,
    );
    assert_eq!(
        step,
        WorkerStep::Finish { exit: WorkerExit::Failed { error: ExecutionError::UnexpectedOutcome } }
    );
}

#[test]
fn lookup_fails_for_an_unsupported_system() {
    let package = package_a();
    assert!(package.lookup(&ubuntu()).is_some());
    assert!(package.lookup(&OS(OsType::Windows)).is_none());
    assert!(package.lookup(&OS(OsType::Macos)).is_none());
}

#[test]
fn later_mapping_replaces_an_earlier_one() {
    let package = Package::new("P", "twice")
        .add_mapping(linux(), InstructionMapping::new().add_install_instructions(vec![cmd("one")]))
        .add_mapping(
            OsMatcher::from_category(OsCategory::DebianBased),
            InstructionMapping::new().add_install_instructions(vec![cmd("two")]),
        );
    let on_ubuntu = package.lookup(&ubuntu()).unwrap();
    assert_eq!(on_ubuntu.install_instructions(), &vec![cmd("two")]);
    let on_fedora = package.lookup(&OS(OsType::Fedora)).unwrap();
    assert_eq!(on_fedora.install_instructions(), &vec![cmd("one")]);
}

#[test]
fn prerequisite_checks_must_be_asserts() {
    let mapping = InstructionMapping::new();
    let rejected = mapping.try_add_prerequisite_checks(vec![check("a", "b"), cmd("rm -rf /")]);
    assert!(rejected.is_err());
    assert!(rejected.unwrap_err().prerequisite_checks().is_empty());
    let accepted = InstructionMapping::new().try_add_prerequisite_checks(vec![check("a", "b")]);
    assert_eq!(accepted.unwrap().prerequisite_checks(), &vec![check("a", "b")]);
}

fn bundle() -> SoftwareBundle {
    SoftwareBundle::new("Test", "Two packages and a stranger")
        .add_program(package_a())
        .add_program(package_b())
        .add_program(package_w())
}

#[test]
fn install_launches_install_then_configure() {
    let bundle = bundle();
    let mut run = bundle.install(&ubuntu(), false);
    match run.advance() {
        Advance::Launch { phase, workers, notes } => {
            assert_eq!(phase, Phase::Install);
            assert_eq!(workers.len(), 2);
            assert_eq!(workers[0].package().name(), "A");
            assert_eq!(workers[1].package().name(), "B");
            assert_eq!(workers[0].phase(), Phase::Install);
            assert_eq!(
                notes,
                vec![
                    line(LogLevel::Info, "==> Installing bundle: Test"),
                    line(LogLevel::Info, "Description: Two packages and a stranger"),
                    line(LogLevel::Error, "No installation mapping found for program: W"),
                ]
            );
        }
        other => panic!("unexpected {:?}", other),
    }
    assert_eq!(run.outstanding(), 2);
    assert_eq!(run.worker_joined(JoinReport::Exited { exit: WorkerExit::AlreadyInstalled }), None);
    assert_eq!(run.worker_joined(JoinReport::Exited { exit: WorkerExit::Completed }), None);
    match run.advance() {
        Advance::Launch { phase, workers, notes } => {
            assert_eq!(phase, Phase::Configure);
            assert_eq!(workers.len(), 2);
            assert_eq!(
                notes,
                vec![line(LogLevel::Error, "No configuration mapping found for program: W")]
            );
        }
        other => panic!("unexpected {:?}", other),
    }
    run.worker_joined(JoinReport::Exited { exit: WorkerExit::Completed });
    run.worker_joined(JoinReport::Exited { exit: WorkerExit::Completed });
    assert_eq!(
        run.advance(),
        Advance::Complete {
            result: Ok(()),
            closing: line(LogLevel::Info, "==> Installation complete."),
        }
    );
}

#[test]
fn configure_waits_for_every_install_worker() {
    let bundle = bundle();
    let mut run = bundle.install(&ubuntu(), false);
    assert!(matches!(run.advance(), Advance::Launch { phase: Phase::Install, .. }));
    assert_eq!(run.advance(), Advance::Blocked { outstanding: 2 });
    run.worker_joined(JoinReport::Exited { exit: WorkerExit::Completed });
    assert_eq!(run.advance(), Advance::Blocked { outstanding: 1 });
    assert_eq!(run.advance(), Advance::Blocked { outstanding: 1 });
    run.worker_joined(JoinReport::Exited { exit: WorkerExit::Completed });
    assert!(matches!(run.advance(), Advance::Launch { phase: Phase::Configure, .. }));
    assert_eq!(run.advance(), Advance::Blocked { outstanding: 2 });
}

#[test]
fn failure_of_one_package_does_not_touch_the_others() {
    let bundle = bundle();
    let mut run = bundle.install(&ubuntu(), false);
    assert!(matches!(run.advance(), Advance::Launch { .. }));
    let failed = WorkerExit::Failed { error: ExecutionError::ProcessExitNonZero { code: Some(1) } };
    assert_eq!(run.worker_joined(JoinReport::Exited { exit: failed }), None);
    assert_eq!(
        run.worker_joined(JoinReport::Panicked),
        Some(line(LogLevel::Critical, "Worker crashed"))
    );
    match run.advance() {
        Advance::Launch { phase, workers, .. } => {
            assert_eq!(phase, Phase::Configure);
            assert_eq!(workers.len(), 2);
            let (effects, exit) = drive(&workers[1], vec![ok(), ok()]);
            assert_eq!(effects[1], spawn(&["configure-b", "one"]));
            assert_eq!(effects[3], spawn(&["configure-b", "two"]));
            assert_eq!(exit, Some(WorkerExit::Completed));
        }
        other => panic!("unexpected {:?}", other),
    }
    run.worker_joined(JoinReport::Exited { exit: failed });
    run.worker_joined(JoinReport::Exited { exit: failed });
    assert!(matches!(run.advance(), Advance::Complete { result: Ok(()), .. }));
}

#[test]
fn uninstall_deconfigures_first() {
    let bundle = bundle();
    let mut run = bundle.uninstall(&ubuntu(), true);
    match run.advance() {
        Advance::Launch { phase, workers, notes } => {
            assert_eq!(phase, Phase::Deconfigure);
            assert_eq!(workers.len(), 1);
            assert_eq!(workers[0].package().name(), "B");
            assert_eq!(
                notes,
                vec![
                    line(LogLevel::Info, "==> Uninstalling bundle: Test"),
                    line(LogLevel::Info, "Description: Two packages and a stranger"),
                    line(LogLevel::Info, "No deconfiguration functions for program: A"),
                    line(LogLevel::Error, "No deconfiguration mapping found for program: W"),
                ]
            );
        }
        other => panic!("unexpected {:?}", other),
    }
    run.worker_joined(JoinReport::Exited { exit: WorkerExit::Completed });
    match run.advance() {
        Advance::Launch { phase, workers, notes } => {
            assert_eq!(phase, Phase::Uninstall);
            assert_eq!(workers.len(), 1);
            assert_eq!(
                notes,
                vec![
                    line(LogLevel::Info, "No uninstallation functions for program: A"),
                    line(LogLevel::Error, "No uninstallation mapping found for program: W"),
                ]
            );
        }
        other => panic!("unexpected {:?}", other),
    }
    run.worker_joined(JoinReport::Exited { exit: WorkerExit::Completed });
    assert_eq!(
        run.advance(),
        Advance::Complete {
            result: Ok(()),
            closing: line(LogLevel::Info, "==> Uninstallation complete."),
        }
    );
}

#[test]
fn empty_bundle_completes_without_workers() {
    let bundle = SoftwareBundle::new("Empty", "nothing");
    let mut run = bundle.install(&ubuntu(), false);
    for _ in 0..2 {
        match run.advance() {
            Advance::Launch { workers, .. } => assert!(workers.is_empty()),
            other => panic!("unexpected {:?}", other),
        }
    }
    assert!(matches!(run.advance(), Advance::Complete { result: Ok(()), .. }));
    assert!(matches!(run.advance(), Advance::Complete { result: Ok(()), .. }));
}

#[test]
fn scenario_skip_a_and_install_b() {
    let bundle = SoftwareBundle::new("AB", "scenario")
        .add_program(package_a())
        .add_program(package_b());
    let mut run = bundle.install(&ubuntu(), false);
    let workers = match run.advance() {
        Advance::Launch { workers, .. } => workers,
        other => panic!("unexpected {:?}", other),
    };
    let (effects_a, exit_a) = drive(&workers[0], vec![said("a 1")]);
    assert!(effects_a.contains(&info("  Program already installed, skipping installation: A")));
    assert!(!effects_a.contains(&spawn(&["install-a", "now"])));
    assert_eq!(exit_a, Some(WorkerExit::AlreadyInstalled));
    let (effects_b, exit_b) = drive(&workers[1], vec![ok()]);
    assert!(effects_b.contains(&spawn(&["install-b"])));
    assert_eq!(exit_b, Some(WorkerExit::Completed));
    run.worker_joined(JoinReport::Exited { exit: exit_a.unwrap() });
    run.worker_joined(JoinReport::Exited { exit: exit_b.unwrap() });
    assert!(matches!(run.advance(), Advance::Launch { phase: Phase::Configure, .. }));
    run.worker_joined(JoinReport::Exited { exit: WorkerExit::Completed });
    run.worker_joined(JoinReport::Exited { exit: WorkerExit::Completed });
    assert!(matches!(run.advance(), Advance::Complete { result: Ok(()), .. }));
}
