use projektwoche_setup::config::machine::{OsCategory, OsMatcher, OsType, OS};

#[test]
fn debian_family_matches_ubuntu() {
    let matcher = OsMatcher::from_category(OsCategory::DebianBased);
    assert!(matcher.matches(&OS(OsType::Ubuntu)));
}

#[test]
fn red_hat_family_does_not_match_ubuntu() {
    let matcher = OsMatcher::from_category(OsCategory::RHELBased);
    assert!(!matcher.matches(&OS(OsType::Ubuntu)));
}

#[test]
fn union_of_arch_and_gentoo_matches_gentoo() {
    let matcher = OsMatcher::from_categories(&[OsCategory::ArchBased, OsCategory::GentooBased]);
    assert!(matcher.matches(&OS(OsType::Gentoo)));
    assert!(matcher.matches(&OS(OsType::Manjaro)));
    assert!(!matcher.matches(&OS(OsType::Windows)));
}
