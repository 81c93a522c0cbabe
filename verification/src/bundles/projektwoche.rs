//! The Projektwoche bundle: what a web development course needs.

use crate::manager::SoftwareBundle;
use crate::packages::apps::{is_chrome, is_git};
use crate::packages::ide::is_vscode;
use crate::packages::js::{is_bun, is_nodejs};
use crate::packages::{apps, ide, js};
use vstd::prelude::*;

verus! {

/// The bundle of Git, Node.js, Bun, Visual Studio Code and Google Chrome,
/// in this order.
pub fn bundle() -> (bundle: SoftwareBundle)
    ensures
        bundle@.name == "Projektwoche"@,
        bundle@.description
            == "A Bundle containing Packages to set up a development environment for the Projektwoche of the Athenaeum Stade"@,
        bundle@.programs.len() == 5,
        is_git(bundle@.programs[0]),
        is_nodejs(bundle@.programs[1]),
        is_bun(bundle@.programs[2]),
        is_vscode(bundle@.programs[3]),
        is_chrome(bundle@.programs[4]),
{
    SoftwareBundle::new(
        "Projektwoche",
        "A Bundle containing Packages to set up a development environment for the Projektwoche of the Athenaeum Stade",
    ).add_program(apps::git()).add_program(js::nodejs()).add_program(js::bun()).add_program(
        ide::vscode(),
    ).add_program(apps::chrome())
}

} // verus!
