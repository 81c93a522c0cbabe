//! The catalog of packages.
//!
//! Every package of the catalog has the same shape on each family of
//! operating systems it supports: one prerequisite check, which tells
//! whether the software is there already, and the instructions that
//! install it.

pub mod apps;
pub mod ide;
pub mod js;

use crate::config::machine::{in_category, OsCategory, OsMatcher, OS};
use crate::manager::instructions::{Instruction, Instructions};
use crate::manager::semantics::InstructionsView;
use crate::manager::{instruction_views, InstructionMapping, InstructionMappingView, Package};
use crate::text::words;
use vstd::prelude::*;

verus! {

/// The mapping that checks for the software by looking for `expect` in the
/// output of `check`, and installs it by `install`.
pub open spec fn checked_install(
    check: Seq<Seq<char>>,
    expect: Seq<char>,
    install: Seq<InstructionsView>,
) -> InstructionMappingView {
    InstructionMappingView {
        prerequisite_checks: seq![InstructionsView::Assert { command: check, expect }],
        install,
        ..InstructionMappingView::empty()
    }
}

/// Builds the mapping that checks for the software by `check_command` and
/// installs it by `install`.
pub fn mapping_with_check(
    what: &'static str,
    check_command: &str,
    expect: &'static str,
    install: Vec<Instructions>,
) -> (mapping: InstructionMapping)
    ensures
        mapping@ == checked_install(words(check_command@), expect@, instruction_views(install@)),
        mapping@.well_formed(),
{
    let mut checks: Vec<Instructions> = Vec::new();
    checks.push(Instruction::new(what).assert_output(check_command, expect));
    assert(instruction_views(checks@) =~= seq![
        InstructionsView::Assert { command: words(check_command@), expect: expect@ },
    ]);
    let mapping = InstructionMapping::new().add_prerequisite_checks(checks).add_install_instructions(
        install,
    );
    assert(mapping@.prerequisite_checks =~= seq![
        InstructionsView::Assert { command: words(check_command@), expect: expect@ },
    ]);
    assert(mapping@.install =~= instruction_views(install@));
    mapping
}

/// The list that holds `first` alone.
pub fn one_instruction(first: Instructions) -> (list: Vec<Instructions>)
    ensures
        instruction_views(list@) == seq![first@],
{
    let mut list: Vec<Instructions> = Vec::new();
    list.push(first);
    assert(instruction_views(list@) =~= seq![first@]);
    list
}

/// The list that holds `first` and `second`.
pub fn two_instructions(first: Instructions, second: Instructions) -> (list: Vec<Instructions>)
    ensures
        instruction_views(list@) == seq![first@, second@],
{
    let mut list: Vec<Instructions> = Vec::new();
    list.push(first);
    list.push(second);
    assert(instruction_views(list@) =~= seq![first@, second@]);
    list
}

/// Gives `package` the instructions of `mapping` on every operating system
/// of `category`.
pub fn support(package: Package, category: OsCategory, mapping: InstructionMapping) -> (out:
    Package)
    ensures
        out@.name == package@.name,
        out@.description == package@.description,
        forall|os: OS| #[trigger]
            out@.mapping.contains_key(os) == (package@.mapping.contains_key(os) || in_category(
                category,
                os,
            )),
        forall|os: OS| in_category(category, os) ==> #[trigger] out@.mapping[os] == mapping@,
        forall|os: OS|
            !in_category(category, os) && package@.mapping.contains_key(os)
                ==> #[trigger] out@.mapping[os] == package@.mapping[os],
{
    let matcher = OsMatcher::from_category(category);
    let out = package.add_mapping(matcher, mapping);
    assert forall|os: OS| #[trigger]
        out@.mapping.contains_key(os) == (package@.mapping.contains_key(os) || in_category(
            category,
            os,
        )) by {
        assert(matcher@.to_set().contains(os) == matcher@.contains(os));
    }
    out
}

} // verus!
