use projektwoche_setup::bundles::projektwoche::bundle;
use projektwoche_setup::config::machine::{OsType, OS};
use projektwoche_setup::manager::instructions::{Instruction, Instructions};
use projektwoche_setup::manager::orchestrator::Advance;
use projektwoche_setup::manager::worker::Phase;
use projektwoche_setup::manager::Package;
use projektwoche_setup::packages::apps::{chrome, git};
use projektwoche_setup::packages::ide::vscode;
use projektwoche_setup::packages::js::{bun, nodejs};

fn check(command: &str, expect: &'static str) -> Instructions {
    Instruction::new("check").assert_output(command, expect)
}

fn app(name: &'static str) -> Instructions {
    Instruction::new("install").install_application(name)
}

fn expect_mapping(package: &Package, os: OsType, checks: Vec<Instructions>, install: Vec<Instructions>) {
    let mapping = package.lookup(&OS(os)).expect("supported");
    assert_eq!(mapping.prerequisite_checks(), &checks);
    assert_eq!(mapping.install_instructions(), &install);
    assert!(mapping.uninstall_instructions().is_empty());
    assert!(mapping.configuration_instructions().is_empty());
    assert!(mapping.deconfiguration_instructions().is_empty());
}

#[test]
fn git_is_installed_by_the_system_package_manager() {
    let package = git();
    assert_eq!(package.name(), "Git");
    assert_eq!(package.description(), "Version control system");
    let checks = vec![check("git --version", "git version")];
    expect_mapping(&package, OsType::Windows, checks.clone(), vec![app("Microsoft.Git")]);
    expect_mapping(&package, OsType::Ubuntu, checks.clone(), vec![app("git")]);
    expect_mapping(&package, OsType::Arch, checks, vec![app("git")]);
    assert!(package.lookup(&OS(OsType::Macos)).is_none());
    assert!(package.lookup(&OS(OsType::FreeBSD)).is_none());
}

#[test]
fn chrome_comes_from_the_vendor_on_linux() {
    let package = chrome();
    assert_eq!(package.name(), "Google Chrome");
    assert_eq!(package.description(), "Web browser");
    expect_mapping(
        &package,
        OsType::Windows,
        vec![check("chrome --version", "Google Chrome")],
        vec![app("Google.Chrome")],
    );
    expect_mapping(
        &package,
        OsType::Debian,
        vec![check("google-chrome --version", "Google Chrome")],
        vec![Instruction::new("get").download_and_exec(
            "https://dl.google.com/linux/direct/google-chrome-stable_current_amd64.deb",
        )],
    );
    expect_mapping(
        &package,
        OsType::Fedora,
        vec![check("google-chrome --version", "Google Chrome")],
        vec![Instruction::new("get").download_and_exec(
            "https://dl.google.com/linux/direct/google-chrome-stable_current_x86_64.rpm",
        )],
    );
    assert!(package.lookup(&OS(OsType::Arch)).is_none());
}

#[test]
fn vscode_supports_windows_red_hat_and_debian() {
    let package = vscode();
    assert_eq!(package.name(), "Visual Studio Code");
    assert_eq!(package.description(), "Code editor");
    let checks = vec![check("code --version", ".")];
    expect_mapping(
        &package,
        OsType::Windows,
        checks.clone(),
        vec![app("Microsoft.VisualStudioCode")],
    );
    expect_mapping(&package, OsType::RockyLinux, checks.clone(), vec![app("code")]);
    expect_mapping(&package, OsType::Mint, checks, vec![app("code")]);
    assert!(package.lookup(&OS(OsType::Gentoo)).is_none());
}

#[test]
fn nodejs_uses_the_version_manager_on_linux() {
    let package = nodejs();
    assert_eq!(package.name(), "Node.js");
    assert_eq!(package.description(), "JavaScript runtime");
    let checks = vec![check("node --version", "v")];
    expect_mapping(&package, OsType::Windows, checks.clone(), vec![app("OpenJS.NodeJS")]);
    expect_mapping(
        &package,
        OsType::Manjaro,
        checks,
        vec![
            Instruction::new("nvm").cmd(
                "curl -o- https://raw.githubusercontent.com/nvm-sh/nvm/v0.40.3/install.sh | bash",
            ),
            Instruction::new("node").cmd(
                "bash -c 'source ~/.bashrc && nvm install node && nvm use node && nvm alias default node'",
            ),
        ],
    );
}

#[test]
fn bun_uses_the_vendor_script_on_linux() {
    let package = bun();
    assert_eq!(package.name(), "Bun");
    assert_eq!(package.description(), "JavaScript runtime and package manager");
    let checks = vec![check("bun --version", ".")];
    expect_mapping(&package, OsType::Windows, checks.clone(), vec![app("Oven-sh.Bun")]);
    expect_mapping(
        &package,
        OsType::NixOS,
        checks,
        vec![
            Instruction::new("bun").cmd("curl -fsSL https://bun.sh/install | bash"),
            Instruction::new("source").cmd("bash -c 'source ~/.bashrc'"),
        ],
    );
}

#[test]
fn projektwoche_bundle_holds_five_packages_in_order() {
    let bundle = bundle();
    assert_eq!(bundle.name(), "Projektwoche");
    assert_eq!(
        bundle.description(),
        "A Bundle containing Packages to set up a development environment for the Projektwoche of the Athenaeum Stade"
    );
    let names: Vec<&str> = bundle.programs().iter().map(|p| p.name()).collect();
    assert_eq!(names, vec!["Git", "Node.js", "Bun", "Visual Studio Code", "Google Chrome"]);
    assert_eq!(bundle.programs()[0], git());
    assert_eq!(bundle.programs()[4], chrome());
}

#[test]
fn projektwoche_bundle_installs_everything_on_ubuntu() {
    let bundle = bundle();
    let mut run = bundle.install(&OS(OsType::Ubuntu), true);
    match run.advance() {
        Advance::Launch { phase, workers, notes } => {
            assert_eq!(phase, Phase::Install);
            assert_eq!(workers.len(), 5);
            assert_eq!(notes.len(), 2);
        }
        other => panic!("unexpected {:?}", other),
    }
}

#[test]
fn projektwoche_bundle_has_no_chrome_or_vscode_on_arch() {
    let bundle = bundle();
    let mut run = bundle.install(&OS(OsType::Arch), false);
    match run.advance() {
        Advance::Launch { workers, notes, .. } => {
            let names: Vec<&str> = workers.iter().map(|w| w.package().name()).collect();
            assert_eq!(names, vec!["Git", "Node.js", "Bun"]);
            assert_eq!(notes.len(), 4);
            assert_eq!(notes[2].text, "No installation mapping found for program: Visual Studio Code");
            assert_eq!(notes[3].text, "No installation mapping found for program: Google Chrome");
        }
        other => panic!("unexpected {:?}", other),
    }
}
