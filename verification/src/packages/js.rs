//! JavaScript runtimes.

use crate::config::machine::{in_category, OsCategory, OS};
use crate::manager::instructions::Instruction;
use crate::manager::semantics::InstructionsView;
use crate::manager::{Package, PackageView};
use crate::packages::{
    checked_install, mapping_with_check, one_instruction, support, two_instructions,
};
use crate::text::words;
use vstd::prelude::*;

verus! {

/// Whether `package` is the package of Node.js: its name, its
/// description, the operating systems that it supports, and its instructions
/// on each of them.
pub open spec fn is_nodejs(package: PackageView) -> bool {
    &&& package.name == "Node.js"@
    &&& package.description == "JavaScript runtime"@
    &&& forall|os: OS| #[trigger]
        package.mapping.contains_key(os) == (in_category(OsCategory::Windows, os)
            || in_category(OsCategory::LinuxBased, os))
    &&& forall|os: OS|
        in_category(OsCategory::Windows, os) ==> #[trigger] package.mapping[os]
            == checked_install(
            words("node --version"@),
            "v"@,
            seq![InstructionsView::InstallApplication { package_name: "OpenJS.NodeJS"@ }],
        )
    &&& forall|os: OS|
        in_category(OsCategory::LinuxBased, os) ==> #[trigger] package.mapping[os]
            == checked_install(
            words("node --version"@),
            "v"@,
            seq![
                InstructionsView::Run {
                    command: words(
                        "curl -o- https://raw.githubusercontent.com/nvm-sh/nvm/v0.40.3/install.sh | bash"@,
                    ),
                },
                InstructionsView::Run {
                    command: words(
                        "bash -c 'source ~/.bashrc && nvm install node && nvm use node && nvm alias default node'"@,
                    ),
                },
            ],
        )
}

/// Node.js: installed by the package manager on Windows, and through the
/// Node version manager on Linux.
pub fn nodejs() -> (package: Package)
    ensures
        is_nodejs(package@),
{
    let package = Package::new("Node.js", "JavaScript runtime");
    let package = support(
        package,
        OsCategory::Windows,
        mapping_with_check(
            "Check if Node.js is installed",
            "node --version",
            "v",
            one_instruction(
                Instruction::new("Install Node.js").install_application("OpenJS.NodeJS"),
            ),
        ),
    );
    support(
        package,
        OsCategory::LinuxBased,
        mapping_with_check(
            "Check if Node.js is installed",
            "node --version",
            "v",
            two_instructions(
                Instruction::new("Install nvm").cmd(
                    "curl -o- https://raw.githubusercontent.com/nvm-sh/nvm/v0.40.3/install.sh | bash",
                ),
                Instruction::new("Source nvm and install Node.js").cmd(
                    "bash -c 'source ~/.bashrc && nvm install node && nvm use node && nvm alias default node'",
                ),
            ),
        ),
    )
}

/// Whether `package` is the package of Bun: its name, its
/// description, the operating systems that it supports, and its instructions
/// on each of them.
pub open spec fn is_bun(package: PackageView) -> bool {
    &&& package.name == "Bun"@
    &&& package.description == "JavaScript runtime and package manager"@
    &&& forall|os: OS| #[trigger]
        package.mapping.contains_key(os) == (in_category(OsCategory::Windows, os)
            || in_category(OsCategory::LinuxBased, os))
    &&& forall|os: OS|
        in_category(OsCategory::Windows, os) ==> #[trigger] package.mapping[os]
            == checked_install(
            words("bun --version"@),
            "."@,
            seq![InstructionsView::InstallApplication { package_name: "Oven-sh.Bun"@ }],
        )
    &&& forall|os: OS|
        in_category(OsCategory::LinuxBased, os) ==> #[trigger] package.mapping[os]
            == checked_install(
            words("bun --version"@),
            "."@,
            seq![
                InstructionsView::Run {
                    command: words("curl -fsSL https://bun.sh/install | bash"@),
                },
                InstructionsView::Run { command: words("bash -c 'source ~/.bashrc'"@) },
            ],
        )
}

/// Bun: installed by the package manager on Windows, and by the vendor's
/// script on Linux.
pub fn bun() -> (package: Package)
    ensures
        is_bun(package@),
{
    let package = Package::new("Bun", "JavaScript runtime and package manager");
    let package = support(
        package,
        OsCategory::Windows,
        mapping_with_check(
            "Check if Bun is installed",
            "bun --version",
            ".",
            one_instruction(Instruction::new("Install Bun").install_application("Oven-sh.Bun")),
        ),
    );
    support(
        package,
        OsCategory::LinuxBased,
        mapping_with_check(
            "Check if Bun is installed",
            "bun --version",
            ".",
            two_instructions(
                Instruction::new("Install Bun").cmd("curl -fsSL https://bun.sh/install | bash"),
                Instruction::new("Source Bun environment").cmd("bash -c 'source ~/.bashrc'"),
            ),
        ),
    )
}

} // verus!
