//! Applications: a web browser and a version control system.

use crate::config::machine::{in_category, OsCategory, OS};
use crate::manager::instructions::Instruction;
use crate::manager::semantics::InstructionsView;
use crate::manager::{Package, PackageView};
use crate::packages::{checked_install, mapping_with_check, one_instruction, support};
use crate::text::words;
use vstd::prelude::*;

verus! {

/// Whether `package` is the package of Google Chrome: its name, its
/// description, the operating systems that it supports, and its instructions
/// on each of them.
pub open spec fn is_chrome(package: PackageView) -> bool {
    &&& package.name == "Google Chrome"@
    &&& package.description == "Web browser"@
    &&& forall|os: OS| #[trigger]
        package.mapping.contains_key(os) == (in_category(OsCategory::Windows, os)
            || in_category(OsCategory::DebianBased, os) || in_category(
            OsCategory::RHELBased,
            os,
        ))
    &&& forall|os: OS|
        in_category(OsCategory::Windows, os) ==> #[trigger] package.mapping[os]
            == checked_install(
            words("chrome --version"@),
            "Google Chrome"@,
            seq![InstructionsView::InstallApplication { package_name: "Google.Chrome"@ }],
        )
    &&& forall|os: OS|
        in_category(OsCategory::DebianBased, os) ==> #[trigger] package.mapping[os]
            == checked_install(
            words("google-chrome --version"@),
            "Google Chrome"@,
            seq![
                InstructionsView::DownloadAndExec {
                    url: "https://dl.google.com/linux/direct/google-chrome-stable_current_amd64.deb"@,
                    silent: false,
                    custom_args: None,
                },
            ],
        )
    &&& forall|os: OS|
        in_category(OsCategory::RHELBased, os) ==> #[trigger] package.mapping[os]
            == checked_install(
            words("google-chrome --version"@),
            "Google Chrome"@,
            seq![
                InstructionsView::DownloadAndExec {
                    url: "https://dl.google.com/linux/direct/google-chrome-stable_current_x86_64.rpm"@,
                    silent: false,
                    custom_args: None,
                },
            ],
        )
}

/// Google Chrome: installed by the package manager on Windows, and from
/// the vendor's package on the Debian and Red Hat families.
pub fn chrome() -> (package: Package)
    ensures
        is_chrome(package@),
{
    let package = Package::new("Google Chrome", "Web browser");
    let package = support(
        package,
        OsCategory::Windows,
        mapping_with_check(
            "Check if Chrome is installed",
            "chrome --version",
            "Google Chrome",
            one_instruction(Instruction::new("Install Chrome").install_application("Google.Chrome")),
        ),
    );
    let package = support(
        package,
        OsCategory::DebianBased,
        mapping_with_check(
            "Check if Chrome is installed",
            "google-chrome --version",
            "Google Chrome",
            one_instruction(
                Instruction::new("Download Chrome").download_and_exec(
                    "https://dl.google.com/linux/direct/google-chrome-stable_current_amd64.deb",
                ),
            ),
        ),
    );
    support(
        package,
        OsCategory::RHELBased,
        mapping_with_check(
            "Check if Chrome is installed",
            "google-chrome --version",
            "Google Chrome",
            one_instruction(
                Instruction::new("Download Chrome").download_and_exec(
                    "https://dl.google.com/linux/direct/google-chrome-stable_current_x86_64.rpm",
                ),
            ),
        ),
    )
}

/// Whether `package` is the package of Git: its name, its
/// description, the operating systems that it supports, and its instructions
/// on each of them.
pub open spec fn is_git(package: PackageView) -> bool {
    &&& package.name == "Git"@
    &&& package.description == "Version control system"@
    &&& forall|os: OS| #[trigger]
        package.mapping.contains_key(os) == (in_category(OsCategory::Windows, os)
            || in_category(OsCategory::LinuxBased, os))
    &&& forall|os: OS|
        in_category(OsCategory::Windows, os) ==> #[trigger] package.mapping[os]
            == checked_install(
            words("git --version"@),
            "git version"@,
            seq![InstructionsView::InstallApplication { package_name: "Microsoft.Git"@ }],
        )
    &&& forall|os: OS|
        in_category(OsCategory::LinuxBased, os) ==> #[trigger] package.mapping[os]
            == checked_install(
            words("git --version"@),
            "git version"@,
            seq![InstructionsView::InstallApplication { package_name: "git"@ }],
        )
}

/// Git: installed by the package manager of the system, on Windows and on
/// every Linux distribution.
pub fn git() -> (package: Package)
    ensures
        is_git(package@),
{
    let package = Package::new("Git", "Version control system");
    let package = support(
        package,
        OsCategory::Windows,
        mapping_with_check(
            "Check if Git is installed",
            "git --version",
            "git version",
            one_instruction(Instruction::new("Install Git").install_application("Microsoft.Git")),
        ),
    );
    support(
        package,
        OsCategory::LinuxBased,
        mapping_with_check(
            "Check if Git is installed",
            "git --version",
            "git version",
            one_instruction(Instruction::new("Install Git").install_application("git")),
        ),
    )
}

} // verus!
