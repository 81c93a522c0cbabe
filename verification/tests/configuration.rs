use projektwoche_setup::config::interactive::{
    choice_index, choice_indices, position, settle_choice, WizardConfig,
};
use projektwoche_setup::config::machine::{
    arch_based_os, Architectures, Machine, OsCategory, OsMatcher, OsSelector, OsType, OS,
};
use projektwoche_setup::config::{default_log_level, Config};
use projektwoche_setup::logger::LogLevel;

fn list(items: &[&str]) -> Vec<String> {
    items.iter().map(|i| i.to_string()).collect()
}

#[test]
fn architecture_names_are_recognised() {
    assert_eq!(Architectures::from_name(Some("x86_64")), Architectures::X86_64);
    assert_eq!(Architectures::from_name(Some("aarch64")), Architectures::AArch64);
    assert_eq!(Architectures::from_name(Some("riscv64")), Architectures::X86_64);
    assert_eq!(Architectures::from_name(Some("")), Architectures::X86_64);
    assert_eq!(Architectures::from_name(None), Architectures::X86_64);
    assert_eq!(Architectures::default(), Architectures::X86_64);
}

#[test]
fn supported_architecture_names_are_told_apart() {
    assert!(Architectures::recognises(Some("x86_64")));
    assert!(Architectures::recognises(Some("aarch64")));
    assert!(!Architectures::recognises(Some("riscv64")));
    assert!(!Architectures::recognises(Some("")));
    assert!(!Architectures::recognises(None));
}

#[test]
fn machine_keeps_what_was_detected() {
    let machine = Machine::detected(OS(OsType::Fedora), Some("aarch64"));
    assert_eq!(machine, Machine { os: OS(OsType::Fedora), arch: Architectures::AArch64 });
}

#[test]
fn config_starts_at_the_default_log_level() {
    let machine = Machine::detected(OS(OsType::Windows), None);
    let config = Config::for_machine(machine);
    assert_eq!(default_log_level(), LogLevel::Info);
    assert_eq!(config, Config { machine, log_level: LogLevel::Info });
    assert_eq!(
        config.with_log_level(LogLevel::Debug),
        Config { machine, log_level: LogLevel::Debug }
    );
}

#[test]
fn matcher_from_a_list_matches_its_members() {
    let matcher = OsMatcher::new(&[OS(OsType::Windows), OS(OsType::Macos)]);
    assert!(matcher.matches(&OS(OsType::Windows)));
    assert!(matcher.matches(&OS(OsType::Macos)));
    assert!(!matcher.matches(&OS(OsType::Linux)));
    assert_eq!(matcher.get_list(), &[OS(OsType::Windows), OS(OsType::Macos)]);
}

#[test]
fn matcher_from_nothing_matches_nothing() {
    assert!(!OsMatcher::new(&[]).matches(&OS(OsType::Linux)));
    let matcher = OsMatcher::from_categories(&[]);
    assert!(matcher.get_list().is_empty());
    assert!(!matcher.matches(&OS(OsType::Ubuntu)));
    assert!(!matcher.matches(&OS(OsType::Unknown)));
}

#[test]
fn matcher_from_a_selector() {
    let one = OsMatcher::from_selector(OsSelector::OS(OS(OsType::Solus)));
    assert_eq!(one.get_list(), &[OS(OsType::Solus)]);
    let family = OsMatcher::from_selector(OsSelector::OsCategory(OsCategory::ArchBased));
    assert_eq!(family.get_list(), arch_based_os().as_slice());
}

#[test]
fn families_list_their_members_in_order() {
    let arch: Vec<OS> = [
        OsType::Arch,
        OsType::Artix,
        OsType::EndeavourOS,
        OsType::Garuda,
        OsType::Manjaro,
        OsType::CachyOS,
    ]
    .iter()
    .map(|t| OS(*t))
    .collect();
    assert_eq!(OsMatcher::from_category(OsCategory::ArchBased).get_list(), arch.as_slice());
    assert_eq!(OsMatcher::from_category(OsCategory::Windows).get_list(), &[OS(OsType::Windows)]);
    assert_eq!(OsMatcher::from_category(OsCategory::MacOS).get_list(), &[OS(OsType::Macos)]);
    assert_eq!(OsMatcher::from_category(OsCategory::GentooBased).get_list(), &[OS(OsType::Gentoo)]);
    assert_eq!(
        OsMatcher::from_category(OsCategory::AndroidBased).get_list(),
        &[OS(OsType::Android)]
    );
    assert_eq!(OsMatcher::from_category(OsCategory::LinuxBased).get_list().len(), 34);
    assert_eq!(OsMatcher::from_category(OsCategory::RHELBased).get_list().len(), 8);
    assert_eq!(OsMatcher::from_category(OsCategory::DebianBased).get_list().len(), 5);
}

#[test]
fn union_keeps_duplicates_and_membership() {
    let matcher = OsMatcher::from_categories(&[OsCategory::ArchBased, OsCategory::LinuxBased]);
    assert_eq!(matcher.get_list().len(), 40);
    assert!(matcher.matches(&OS(OsType::Arch)));
    assert!(matcher.matches(&OS(OsType::Ubuntu)));
    assert!(!matcher.matches(&OS(OsType::Android)));
}

#[test]
fn every_family_system_is_a_linux_system() {
    let linux = OsMatcher::from_category(OsCategory::LinuxBased);
    for family in [
        OsCategory::ArchBased,
        OsCategory::RHELBased,
        OsCategory::DebianBased,
        OsCategory::GentooBased,
    ] {
        for os in OsMatcher::from_category(family).get_list() {
            assert!(linux.matches(os));
        }
    }
}

#[test]
fn position_finds_the_first_occurrence() {
    let options = list(&["Vim", "Emacs", "Vim"]);
    assert_eq!(position(&options, "Vim"), Some(0));
    assert_eq!(position(&options, "Emacs"), Some(1));
    assert_eq!(position(&options, "Nano"), None);
    assert_eq!(position(&list(&[]), "Vim"), None);
}

#[test]
fn choice_falls_back_to_the_default() {
    let options = list(&["Visual Studio Code (Recommended)", "Vim", "Emacs"]);
    assert_eq!(choice_index(&options, Some("Emacs"), Some(0)), 2);
    assert_eq!(choice_index(&options, Some("Unknown"), Some(1)), 0);
    assert_eq!(choice_index(&options, None, Some(1)), 1);
    assert_eq!(choice_index(&options, None, None), 0);
}

#[test]
fn several_choices_keep_the_order_of_the_answers() {
    let options = list(&["Rust", "JavaScript", "Python", "Go"]);
    assert_eq!(choice_indices(&options, &list(&["Go", "Rust"])), vec![3, 0]);
    assert_eq!(choice_indices(&options, &list(&["Go", "Cobol", "Go"])), vec![3, 3]);
    assert_eq!(choice_indices(&options, &list(&[])), Vec::<usize>::new());
}

#[test]
fn other_is_replaced_by_what_the_user_wrote() {
    assert_eq!(settle_choice("vim", Some("ignored")), "vim");
    assert_eq!(settle_choice("other", Some("helix")), "helix");
    assert_eq!(settle_choice("other", None), "");
    assert_eq!(settle_choice("Other", None), "Other");
}

#[test]
fn summary_lists_what_was_chosen() {
    let config = WizardConfig {
        editor: "vscode".to_string(),
        browser: "firefox".to_string(),
        languages: list(&["rust", "javascript"]),
        install_path: Some("/usr/local".to_string()),
        install_extras: true,
    };
    assert_eq!(
        config.summary(),
        list(&[
            "Editor: vscode",
            "Browser: firefox",
            "Languages: rust, javascript",
            "Install path: /usr/local",
            "Additional tools: Yes",
        ])
    );
    let plain = WizardConfig {
        editor: "vim".to_string(),
        browser: "chrome".to_string(),
        languages: list(&[]),
        install_path: None,
        install_extras: false,
    };
    assert_eq!(plain.summary(), list(&["Editor: vim", "Browser: chrome", "Languages: "]));
}
