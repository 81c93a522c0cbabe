//! Packages, bundles and their phased execution.
//!
//! A [`Package`] maps operating systems to the instructions that install,
//! configure, deconfigure and uninstall one piece of software there; a
//! [`SoftwareBundle`] is an ordered collection of packages. Both are built
//! once and read afterwards. How a bundle is executed is laid down in
//! [`semantics`] (the steps of one instruction), [`worker`] (one package in
//! one phase) and [`orchestrator`] (the phases of a bundle and the barrier
//! between them); [`effects`] is the vocabulary that they share with the
//! host program.

pub mod effects;
pub mod instructions;
pub mod orchestrator;
pub mod semantics;
pub mod worker;

use crate::config::machine::{OsMatcher, OS};
use crate::manager::instructions::Instructions;
use crate::manager::semantics::InstructionsView;
use vstd::prelude::*;

verus! {

/// The mathematical content of each instruction of `list`.
pub open spec fn instruction_views(list: Seq<Instructions>) -> Seq<InstructionsView> {
    Seq::new(list.len(), |i: int| list[i]@)
}

/// A copy of a list of instructions.
pub fn duplicate_instructions(list: &Vec<Instructions>) -> (copy: Vec<Instructions>)
    ensures
        instruction_views(copy@) == instruction_views(list@),
{
    let mut copy: Vec<Instructions> = Vec::new();
    let mut i: usize = 0;
    while i < list.len()
        invariant
            i <= list.len(),
            copy.len() == i,
            forall|k: int| 0 <= k < i ==> copy@[k]@ == list@[k]@,
        decreases list.len() - i,
    {
        copy.push(list[i].duplicate());
        i = i + 1;
    }
    assert(instruction_views(copy@) =~= instruction_views(list@));
    copy
}

/// Whether every instruction of `list` is a check of a command's output.
pub open spec fn all_asserts(list: Seq<InstructionsView>) -> bool {
    forall|i: int| 0 <= i < list.len() ==> #[trigger] list[i] is Assert
}

/// Tests whether every instruction of `list` is a check of a command's
/// output.
pub fn only_asserts(list: &Vec<Instructions>) -> (r: bool)
    ensures
        r == all_asserts(instruction_views(list@)),
{
    let mut i: usize = 0;
    while i < list.len()
        invariant
            i <= list.len(),
            forall|k: int| 0 <= k < i ==> #[trigger] instruction_views(list@)[k] is Assert,
        decreases list.len() - i,
    {
        if !list[i].is_assert() {
            assert(!(instruction_views(list@)[i as int] is Assert));
            return false;
        }
        i = i + 1;
    }
    true
}

/// The instructions of a package on one operating system, phase by phase.
/// Within a phase the instructions run in the order of their list.
#[derive(Debug, PartialEq, Eq, Hash)]
pub struct InstructionMapping {
    /// Checks that tell whether the software is installed already
    prerequisite_checks: Vec<Instructions>,
    /// Instructions that install the software
    install_instructions: Vec<Instructions>,
    /// Instructions that remove the software
    uninstall_instructions: Vec<Instructions>,
    /// Instructions that configure the software once it is installed
    configuration_instructions: Vec<Instructions>,
    /// Instructions that revert the configuration
    deconfiguration_instructions: Vec<Instructions>,
}

/// The mathematical content of an [`InstructionMapping`].
pub struct InstructionMappingView {
    pub prerequisite_checks: Seq<InstructionsView>,
    pub install: Seq<InstructionsView>,
    pub uninstall: Seq<InstructionsView>,
    pub configure: Seq<InstructionsView>,
    pub deconfigure: Seq<InstructionsView>,
}

impl InstructionMappingView {
    /// The mapping without any instruction.
    pub open spec fn empty() -> Self {
        InstructionMappingView {
            prerequisite_checks: Seq::empty(),
            install: Seq::empty(),
            uninstall: Seq::empty(),
            configure: Seq::empty(),
            deconfigure: Seq::empty(),
        }
    }

    /// Whether the prerequisite checks are checks of a command's output,
    /// as they must be.
    pub open spec fn well_formed(self) -> bool {
        all_asserts(self.prerequisite_checks)
    }
}

impl View for InstructionMapping {
    type V = InstructionMappingView;

    closed spec fn view(&self) -> InstructionMappingView {
        InstructionMappingView {
            prerequisite_checks: instruction_views(self.prerequisite_checks@),
            install: instruction_views(self.install_instructions@),
            uninstall: instruction_views(self.uninstall_instructions@),
            configure: instruction_views(self.configuration_instructions@),
            deconfigure: instruction_views(self.deconfiguration_instructions@),
        }
    }
}

/// Adds the instructions of `more` to the end of `list`.
fn extend_instructions(list: &mut Vec<Instructions>, more: Vec<Instructions>)
    ensures
        instruction_views(final(list)@) == instruction_views(old(list)@) + instruction_views(more@),
{
    let mut more = more;
    let ghost added = more@;
    list.append(&mut more);
    assert(instruction_views(list@) =~= instruction_views(old(list)@) + instruction_views(added));
}

impl InstructionMapping {
    /// Prerequisite checks are checks of a command's output, in every
    /// mapping there is.
    #[verifier::type_invariant]
    spec fn checks_are_asserts(self) -> bool {
        all_asserts(instruction_views(self.prerequisite_checks@))
    }

    /// Creates a mapping without any instruction.
    pub fn new() -> (mapping: Self)
        ensures
            mapping@ == InstructionMappingView::empty(),
    {
        let mapping = Self {
            prerequisite_checks: Vec::new(),
            install_instructions: Vec::new(),
            uninstall_instructions: Vec::new(),
            configuration_instructions: Vec::new(),
            deconfiguration_instructions: Vec::new(),
        };
        assert(mapping@.prerequisite_checks =~= Seq::empty());
        assert(mapping@.install =~= Seq::empty());
        assert(mapping@.uninstall =~= Seq::empty());
        assert(mapping@.configure =~= Seq::empty());
        assert(mapping@.deconfigure =~= Seq::empty());
        mapping
    }

    /// Adds prerequisite checks. Only checks of a command's output are
    /// prerequisite checks; anything else is a mistake of the caller.
    pub fn add_prerequisite_checks(self, checks: Vec<Instructions>) -> (mapping: Self)
        requires
            all_asserts(instruction_views(checks@)),
        ensures
            mapping@ == (InstructionMappingView {
                prerequisite_checks: self@.prerequisite_checks + instruction_views(checks@),
                ..self@
            }),
            mapping@.well_formed(),
    {
        proof {
            use_type_invariant(&self);
        }
        let ghost before = instruction_views(self.prerequisite_checks@);
        let mut list = self.prerequisite_checks;
        extend_instructions(&mut list, checks);
        assert forall|i: int| 0 <= i < instruction_views(list@).len() implies #[trigger] instruction_views(
            list@,
        )[i] is Assert by {
            if i < before.len() {
                assert(instruction_views(list@)[i] == before[i]);
            } else {
                assert(instruction_views(list@)[i] == instruction_views(checks@)[i - before.len()]);
            }
        }
        Self {
            prerequisite_checks: list,
            install_instructions: self.install_instructions,
            uninstall_instructions: self.uninstall_instructions,
            configuration_instructions: self.configuration_instructions,
            deconfiguration_instructions: self.deconfiguration_instructions,
        }
    }

    /// Adds prerequisite checks, unless one of them is not a check of a
    /// command's output: then nothing is added and the mapping comes back
    /// as the error.
    pub fn try_add_prerequisite_checks(self, checks: Vec<Instructions>) -> (r: Result<Self, Self>)
        ensures
            match r {
                Ok(mapping) => all_asserts(instruction_views(checks@)) && mapping@ == (
                InstructionMappingView {
                    prerequisite_checks: self@.prerequisite_checks + instruction_views(checks@),
                    ..self@
                }),
                Err(mapping) => !all_asserts(instruction_views(checks@)) && mapping@ == self@,
            },
    {
        if only_asserts(&checks) {
            Ok(self.add_prerequisite_checks(checks))
        } else {
            Err(self)
        }
    }

    /// Adds instructions to the install phase.
    pub fn add_install_instructions(self, instructions: Vec<Instructions>) -> (mapping: Self)
        ensures
            mapping@ == (InstructionMappingView {
                install: self@.install + instruction_views(instructions@),
                ..self@
            }),
    {
        proof {
            use_type_invariant(&self);
        }
        let mut list = self.install_instructions;
        extend_instructions(&mut list, instructions);
        Self {
            prerequisite_checks: self.prerequisite_checks,
            install_instructions: list,
            uninstall_instructions: self.uninstall_instructions,
            configuration_instructions: self.configuration_instructions,
            deconfiguration_instructions: self.deconfiguration_instructions,
        }
    }

    /// Adds instructions to the uninstall phase.
    pub fn add_uninstall_instructions(self, instructions: Vec<Instructions>) -> (mapping: Self)
        ensures
            mapping@ == (InstructionMappingView {
                uninstall: self@.uninstall + instruction_views(instructions@),
                ..self@
            }),
    {
        proof {
            use_type_invariant(&self);
        }
        let mut list = self.uninstall_instructions;
        extend_instructions(&mut list, instructions);
        Self {
            prerequisite_checks: self.prerequisite_checks,
            install_instructions: self.install_instructions,
            uninstall_instructions: list,
            configuration_instructions: self.configuration_instructions,
            deconfiguration_instructions: self.deconfiguration_instructions,
        }
    }

    /// Adds instructions to the configure phase.
    pub fn add_configuration_instructions(self, instructions: Vec<Instructions>) -> (mapping: Self)
        ensures
            mapping@ == (InstructionMappingView {
                configure: self@.configure + instruction_views(instructions@),
                ..self@
            }),
    {
        proof {
            use_type_invariant(&self);
        }
        let mut list = self.configuration_instructions;
        extend_instructions(&mut list, instructions);
        Self {
            prerequisite_checks: self.prerequisite_checks,
            install_instructions: self.install_instructions,
            uninstall_instructions: self.uninstall_instructions,
            configuration_instructions: list,
            deconfiguration_instructions: self.deconfiguration_instructions,
        }
    }

    /// Adds instructions to the deconfigure phase.
    pub fn add_deconfiguration_instructions(self, instructions: Vec<Instructions>) -> (mapping:
        Self)
        ensures
            mapping@ == (InstructionMappingView {
                deconfigure: self@.deconfigure + instruction_views(instructions@),
                ..self@
            }),
    {
        proof {
            use_type_invariant(&self);
        }
        let mut list = self.deconfiguration_instructions;
        extend_instructions(&mut list, instructions);
        Self {
            prerequisite_checks: self.prerequisite_checks,
            install_instructions: self.install_instructions,
            uninstall_instructions: self.uninstall_instructions,
            configuration_instructions: self.configuration_instructions,
            deconfiguration_instructions: list,
        }
    }

    /// A copy of the mapping.
    pub fn duplicate(&self) -> (copy: Self)
        ensures
            copy@ == self@,
    {
        proof {
            use_type_invariant(self);
        }
        Self {
            prerequisite_checks: duplicate_instructions(&self.prerequisite_checks),
            install_instructions: duplicate_instructions(&self.install_instructions),
            uninstall_instructions: duplicate_instructions(&self.uninstall_instructions),
            configuration_instructions: duplicate_instructions(&self.configuration_instructions),
            deconfiguration_instructions: duplicate_instructions(
                &self.deconfiguration_instructions,
            ),
        }
    }

    /// The prerequisite checks, in order. Each of them is a check of a
    /// command's output, whatever the mapping.
    pub fn prerequisite_checks(&self) -> (list: &Vec<Instructions>)
        ensures
            instruction_views(list@) == self@.prerequisite_checks,
            self@.well_formed(),
    {
        proof {
            use_type_invariant(self);
        }
        &self.prerequisite_checks
    }

    /// The instructions of the install phase, in order.
    pub fn install_instructions(&self) -> (list: &Vec<Instructions>)
        ensures
            instruction_views(list@) == self@.install,
    {
        &self.install_instructions
    }

    /// The instructions of the uninstall phase, in order.
    pub fn uninstall_instructions(&self) -> (list: &Vec<Instructions>)
        ensures
            instruction_views(list@) == self@.uninstall,
    {
        &self.uninstall_instructions
    }

    /// The instructions of the configure phase, in order.
    pub fn configuration_instructions(&self) -> (list: &Vec<Instructions>)
        ensures
            instruction_views(list@) == self@.configure,
    {
        &self.configuration_instructions
    }

    /// The instructions of the deconfigure phase, in order.
    pub fn deconfiguration_instructions(&self) -> (list: &Vec<Instructions>)
        ensures
            instruction_views(list@) == self@.deconfigure,
    {
        &self.deconfiguration_instructions
    }
}

impl Clone for InstructionMapping {
    fn clone(&self) -> (copy: Self)
        ensures
            copy@ == self@,
    {
        self.duplicate()
    }
}

/// The instructions of a package for one operating system.
#[derive(Debug, Clone, PartialEq, Eq)]
struct MappingEntry {
    os: OS,
    mapping: InstructionMapping,
}

/// The map that a list of entries stands for: a later entry for an
/// operating system replaces an earlier one.
spec fn map_of(entries: Seq<MappingEntry>) -> Map<OS, InstructionMappingView>
    decreases entries.len(),
{
    if entries.len() == 0 {
        Map::empty()
    } else {
        map_of(entries.drop_last()).insert(entries.last().os, entries.last().mapping@)
    }
}

/// A software package: its name, its description, and its instructions on
/// each operating system that it supports.
#[derive(Debug, Clone, PartialEq, Eq)]
pub struct Package {
    /// Human-readable name of the package
    name: &'static str,
    /// Brief description of what the package provides
    description: &'static str,
    /// The instructions, one entry for each operating system they were
    /// added for; of two entries for one system the later one counts
    entries: Vec<MappingEntry>,
}

/// The mathematical content of a [`Package`].
pub struct PackageView {
    pub name: Seq<char>,
    pub description: Seq<char>,
    /// The instructions of each supported operating system
    pub mapping: Map<OS, InstructionMappingView>,
}

impl View for Package {
    type V = PackageView;

    closed spec fn view(&self) -> PackageView {
        PackageView {
            name: self.name@,
            description: self.description@,
            mapping: map_of(self.entries@),
        }
    }
}

impl Package {
    /// Creates a package that supports no operating system yet.
    pub fn new(name: &'static str, description: &'static str) -> (package: Self)
        ensures
            package@ == (PackageView {
                name: name@,
                description: description@,
                mapping: Map::empty(),
            }),
    {
        Self { name, description, entries: Vec::new() }
    }

    /// Gives the package the instructions of `mapping` on every operating
    /// system that `os` lists. Instructions that the package had for one of
    /// these systems are replaced; those for other systems stay.
    pub fn add_mapping(self, os: OsMatcher, mapping: InstructionMapping) -> (package: Self)
        ensures
            package@.name == self@.name,
            package@.description == self@.description,
            package@.mapping.dom() == self@.mapping.dom().union(os@.to_set()),
            forall|k: OS|
                os@.contains(k) ==> #[trigger] package@.mapping[k] == mapping@,
            forall|k: OS|
                !os@.contains(k) && self@.mapping.contains_key(k) ==> #[trigger] package@.mapping[k]
                    == self@.mapping[k],
    {
        let mut package = self;
        let list = os.get_list();
        let mut i: usize = 0;
        assert(list@.take(0).to_set() =~= Set::<OS>::empty());
        assert(self@.mapping.dom().union(Set::<OS>::empty()) =~= self@.mapping.dom());
        while i < list.len()
            invariant
                i <= list.len(),
                list@ == os@,
                package@.name == self@.name,
                package@.description == self@.description,
                package@.mapping.dom() == self@.mapping.dom().union(list@.take(i as int).to_set()),
                forall|k: OS|
                    list@.take(i as int).contains(k) ==> #[trigger] package@.mapping[k]
                        == mapping@,
                forall|k: OS|
                    !list@.take(i as int).contains(k) && self@.mapping.contains_key(k)
                        ==> #[trigger] package@.mapping[k] == self@.mapping[k],
            decreases list.len() - i,
        {
            let ghost before = package@.mapping;
            let ghost entries = package.entries@;
            let entry = MappingEntry { os: list[i], mapping: mapping.duplicate() };
            package.entries.push(entry);
            proof {
                assert(package.entries@.drop_last() =~= entries);
                assert(package@.mapping == before.insert(list@[i as int], mapping@));
                let shorter = list@.take(i as int);
                let longer = list@.take(i + 1);
                assert(longer =~= shorter.push(list@[i as int]));
                assert forall|k: OS| longer.contains(k) <==> shorter.contains(k) || k
                    == list@[i as int] by {
                    if shorter.contains(k) {
                        let j = choose|j: int| 0 <= j < shorter.len() && shorter[j] == k;
                        assert(longer[j] == k);
                    }
                    if k == list@[i as int] {
                        assert(longer[i as int] == k);
                    }
                    if longer.contains(k) {
                        let j = choose|j: int| 0 <= j < longer.len() && longer[j] == k;
                        if j < i {
                            assert(shorter[j] == k);
                        }
                    }
                }
                assert(longer.to_set() =~= shorter.to_set().insert(list@[i as int]));
                assert(package@.mapping.dom() =~= self@.mapping.dom().union(longer.to_set()));
            }
            i = i + 1;
        }
        assert(list@.take(list.len() as int) =~= list@);
        package
    }

    /// The instructions of the package on `os`. A package that does not
    /// support `os` has none, which is not the same as an empty mapping.
    pub fn lookup(&self, os: &OS) -> (found: Option<&InstructionMapping>)
        ensures
            match found {
                Some(mapping) => self@.mapping.contains_key(*os) && mapping@ == self@.mapping[*os]
                    && mapping@.well_formed(),
                None => !self@.mapping.contains_key(*os),
            },
    {
        let mut i: usize = self.entries.len();
        assert(self.entries@.take(i as int) =~= self.entries@);
        while i > 0
            invariant
                i <= self.entries.len(),
                self@.mapping.contains_key(*os) == map_of(
                    self.entries@.take(i as int),
                ).contains_key(*os),
                self@.mapping.contains_key(*os) ==> self@.mapping[*os] == map_of(
                    self.entries@.take(i as int),
                )[*os],
            decreases i,
        {
            let ghost prefix = self.entries@.take(i as int);
            assert(prefix.drop_last() =~= self.entries@.take(i - 1));
            assert(prefix.last() == self.entries@[i - 1]);
            if self.entries[i - 1].os == *os {
                let mapping = &self.entries[i - 1].mapping;
                proof {
                    use_type_invariant(mapping);
                }
                return Some(mapping);
            }
            i = i - 1;
        }
        None
    }

    /// The name of the package.
    pub fn name(&self) -> (name: &'static str)
        ensures
            name@ == self@.name,
    {
        self.name
    }

    /// The description of the package.
    pub fn description(&self) -> (description: &'static str)
        ensures
            description@ == self@.description,
    {
        self.description
    }

    /// A copy of the package.
    pub fn duplicate(&self) -> (copy: Self)
        ensures
            copy@ == self@,
    {
        let mut entries: Vec<MappingEntry> = Vec::new();
        let mut i: usize = 0;
        assert(self.entries@.take(0) =~= Seq::<MappingEntry>::empty());
        while i < self.entries.len()
            invariant
                i <= self.entries.len(),
                entries.len() == i,
                map_of(entries@) == map_of(self.entries@.take(i as int)),
            decreases self.entries.len() - i,
        {
            let ghost before = entries@;
            let entry = MappingEntry {
                os: self.entries[i].os,
                mapping: self.entries[i].mapping.duplicate(),
            };
            entries.push(entry);
            proof {
                assert(entries@.drop_last() =~= before);
                assert(self.entries@.take(i + 1).drop_last() =~= self.entries@.take(i as int));
            }
            i = i + 1;
        }
        assert(self.entries@.take(self.entries.len() as int) =~= self.entries@);
        Self { name: self.name, description: self.description, entries }
    }
}

/// An ordered collection of packages that are installed and removed
/// together. The order is that of display; it does not order execution.
#[derive(Debug, Clone, PartialEq, Eq)]
pub struct SoftwareBundle {
    /// Human-readable name of the bundle
    name: &'static str,
    /// Description of what this bundle provides
    description: &'static str,
    /// The packages of the bundle
    programs: Vec<Package>,
}

/// The mathematical content of a [`SoftwareBundle`].
pub struct SoftwareBundleView {
    pub name: Seq<char>,
    pub description: Seq<char>,
    pub programs: Seq<PackageView>,
}

/// The mathematical content of each package of `list`.
pub open spec fn package_views(list: Seq<Package>) -> Seq<PackageView> {
    Seq::new(list.len(), |i: int| list[i]@)
}

impl View for SoftwareBundle {
    type V = SoftwareBundleView;

    closed spec fn view(&self) -> SoftwareBundleView {
        SoftwareBundleView {
            name: self.name@,
            description: self.description@,
            programs: package_views(self.programs@),
        }
    }
}

impl SoftwareBundle {
    /// Creates a bundle without packages.
    pub fn new(name: &'static str, description: &'static str) -> (bundle: Self)
        ensures
            bundle@ == (SoftwareBundleView {
                name: name@,
                description: description@,
                programs: Seq::empty(),
            }),
    {
        let bundle = Self { name, description, programs: Vec::new() };
        assert(bundle@.programs =~= Seq::empty());
        bundle
    }

    /// Adds a package to the end of the bundle.
    pub fn add_program(self, program: Package) -> (bundle: Self)
        ensures
            bundle@ == (SoftwareBundleView {
                programs: self@.programs.push(program@),
                ..self@
            }),
    {
        let mut bundle = self;
        bundle.programs.push(program);
        assert(bundle@.programs =~= self@.programs.push(program@));
        bundle
    }

    /// The name of the bundle.
    pub fn name(&self) -> (name: &'static str)
        ensures
            name@ == self@.name,
    {
        self.name
    }

    /// The description of the bundle.
    pub fn description(&self) -> (description: &'static str)
        ensures
            description@ == self@.description,
    {
        self.description
    }

    /// The packages of the bundle, in order.
    pub fn programs(&self) -> (list: &Vec<Package>)
        ensures
            package_views(list@) == self@.programs,
    {
        &self.programs
    }
}

} // verus!
