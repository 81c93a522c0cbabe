//! Code editors.

use crate::config::machine::{in_category, OsCategory, OS};
use crate::manager::instructions::Instruction;
use crate::manager::semantics::InstructionsView;
use crate::manager::{Package, PackageView};
use crate::packages::{checked_install, mapping_with_check, one_instruction, support};
use crate::text::words;
use vstd::prelude::*;

verus! {

/// Whether `package` is the package of Visual Studio Code: its name, its
/// description, the operating systems that it supports, and its instructions
/// on each of them.
pub open spec fn is_vscode(package: PackageView) -> bool {
    &&& package.name == "Visual Studio Code"@
    &&& package.description == "Code editor"@
    &&& forall|os: OS| #[trigger]
        package.mapping.contains_key(os) == (in_category(OsCategory::Windows, os)
            || in_category(OsCategory::RHELBased, os) || in_category(
            OsCategory::DebianBased,
            os,
        ))
    &&& forall|os: OS|
        in_category(OsCategory::Windows, os) ==> #[trigger] package.mapping[os]
            == checked_install(
            words("code --version"@),
            "."@,
            seq![
                InstructionsView::InstallApplication {
                    package_name: "Microsoft.VisualStudioCode"@,
                },
            ],
        )
    &&& forall|os: OS|
        in_category(OsCategory::RHELBased, os) || in_category(OsCategory::DebianBased, os)
            ==> #[trigger] package.mapping[os] == checked_install(
            words("code --version"@),
            "."@,
            seq![InstructionsView::InstallApplication { package_name: "code"@ }],
        )
}

/// Visual Studio Code: installed by the package manager of the system, on
/// Windows and on the Red Hat and Debian families.
pub fn vscode() -> (package: Package)
    ensures
        is_vscode(package@),
{
    let package = Package::new("Visual Studio Code", "Code editor");
    let package = support(
        package,
        OsCategory::Windows,
        mapping_with_check(
            "Check if VSCode is installed",
            "code --version",
            ".",
            one_instruction(
                Instruction::new("Install VSCode").install_application(
                    "Microsoft.VisualStudioCode",
                ),
            ),
        ),
    );
    let package = support(
        package,
        OsCategory::RHELBased,
        mapping_with_check(
            "Check if VSCode is installed",
            "code --version",
            ".",
            one_instruction(Instruction::new("Install VSCode").install_application("code")),
        ),
    );
    support(
        package,
        OsCategory::DebianBased,
        mapping_with_check(
            "Check if VSCode is installed",
            "code --version",
            ".",
            one_instruction(Instruction::new("Install VSCode").install_application("code")),
        ),
    )
}

} // verus!
