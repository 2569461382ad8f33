use vstd::prelude::*;
use crate::program::{
    allocator_section, config_section, directives_section, header_section, hooks_section,
    imports_section, main_before_registers, main_section, trampoline_section,
    untyped_search_section, uses_section, Target,
};
use crate::text::{
    ALLOCATOR_MARK, BOOT_MARK, CONFIG_MARK, CONFIG_OPEN, DIRECTIVES_MARK, HEADER_MARK,
    HOOKS_MARK, IMPORTS_MARK, MAIN_MARK, TRAMPOLINE_MARK, USES_MARK,
};

verus! {

/// The sections of a root task, in the order in which they are written.
#[derive(Clone, Copy, Debug, PartialEq, Eq, Structural)]
pub enum Section {
    Header,
    Directives,
    Imports,
    Uses,
    Allocator,
    Hooks,
    Configuration,
    UntypedSearch,
    Main,
    Trampoline,
}

impl Section {
    /// Place of the section in the program, counted from zero.
    pub open spec fn position(self) -> int {
        match self {
            Section::Header => 0,
            Section::Directives => 1,
            Section::Imports => 2,
            Section::Uses => 3,
            Section::Allocator => 4,
            Section::Hooks => 5,
            Section::Configuration => 6,
            Section::UntypedSearch => 7,
            Section::Main => 8,
            Section::Trampoline => 9,
        }
    }

    /// The fixed text with which the section begins.
    pub open spec fn marker(self) -> Seq<char> {
        match self {
            Section::Header => HEADER_MARK@,
            Section::Directives => DIRECTIVES_MARK@,
            Section::Imports => IMPORTS_MARK@,
            Section::Uses => USES_MARK@,
            Section::Allocator => ALLOCATOR_MARK@,
            Section::Hooks => HOOKS_MARK@,
            Section::Configuration => CONFIG_MARK@,
            Section::UntypedSearch => BOOT_MARK@,
            Section::Main => MAIN_MARK@,
            Section::Trampoline => TRAMPOLINE_MARK@,
        }
    }

    /// The text of the section in the program of `target`.
    pub open spec fn text(self, target: Target) -> Seq<char> {
        match self {
            Section::Header => header_section(),
            Section::Directives => directives_section(),
            Section::Imports => imports_section(target.module),
            Section::Uses => uses_section(),
            Section::Allocator => allocator_section(),
            Section::Hooks => hooks_section(),
            Section::Configuration => config_section(target.constants),
            Section::UntypedSearch => untyped_search_section(),
            Section::Main => main_section(target.arch, target.module),
            Section::Trampoline => trampoline_section(target.trampolines.of(target.arch)),
        }
    }

    /// All that the program of `target` holds in front of the section.
    pub open spec fn text_before(self, target: Target) -> Seq<char>
        decreases self.position(),
    {
        match self {
            Section::Header => Seq::empty(),
            Section::Directives => Section::Header.text_before(target) + Section::Header.text(
                target,
            ),
            Section::Imports => Section::Directives.text_before(target)
                + Section::Directives.text(target),
            Section::Uses => Section::Imports.text_before(target) + Section::Imports.text(target),
            Section::Allocator => Section::Uses.text_before(target) + Section::Uses.text(target),
            Section::Hooks => Section::Allocator.text_before(target) + Section::Allocator.text(
                target,
            ),
            Section::Configuration => Section::Hooks.text_before(target) + Section::Hooks.text(
                target,
            ),
            Section::UntypedSearch => Section::Configuration.text_before(target)
                + Section::Configuration.text(target),
            Section::Main => Section::UntypedSearch.text_before(target)
                + Section::UntypedSearch.text(target),
            Section::Trampoline => Section::Main.text_before(target) + Section::Main.text(target),
        }
    }

    /// Offset at which the section begins in the program of `target`.
    pub open spec fn start(self, target: Target) -> int {
        self.text_before(target).len() as int
    }
}

/// Offset at which the configuration constants begin in the program of `target`.
pub open spec fn constants_start(target: Target) -> int {
    Section::Configuration.start(target) + CONFIG_MARK@.len() + CONFIG_OPEN@.len()
}

/// Offset at which the register set-up begins in the program of `target`.
pub open spec fn register_setup_start(target: Target) -> int {
    Section::Main.start(target) + main_before_registers().len()
}

} // verus!
