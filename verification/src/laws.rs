use vstd::prelude::*;
use crate::arch::{program_counter_name, stack_pointer_name, Arch};
use crate::layout::{constants_start, register_setup_start, Section};
use crate::program::{
    entry_assignment, entry_symbol, feature_guard, guard_condition, guarded_entry,
    header_section, main_after_registers, main_before_registers, main_section, preamble,
    program_text, register_setup, stack_assignment, stack_top_step, trampoline_section, Target,
};
use crate::text::{
    ASSERT_CLOSE, CONFIGURE_CALL, CONFIGURE_MESSAGE, CONFIG_CLOSE, CONFIG_MARK, CONFIG_OPEN,
    HEADER_MARK, MAIN_MARK, MAIN_OPEN, NEGATION_CLOSE, NEGATION_OPEN, PRODUCTION_ENTRY,
    PROPTEST_IMPORT, RETYPE_CALL, RETYPE_MESSAGE, SEARCH_CALL, SEARCH_CLOSE, SEARCH_MESSAGE,
    TEST_ENTRY,
};

verus! {

/// No marker is empty.
proof fn lemma_markers_are_not_empty(section: Section)
    ensures
        section.marker().len() > 0,
{
    reveal_strlit("// NOTE: this file is generated by fel4");
    reveal_strlit("#![no_std]");
    reveal_strlit("extern crate sel4_sys;");
    reveal_strlit("
use core::intrinsics;");
    reveal_strlit("#[cfg(feature = \"alloc\")]
#[global_allocator]");
    reveal_strlit("pub static mut BOOTINFO: *mut seL4_BootInfo");
    reveal_strlit("// include the seL4 kernel configurations");
    reveal_strlit("fn get_untyped(");
    reveal_strlit("fn main() {");
    reveal_strlit("global_asm!(r###\"");
}

/// Every section begins with its marker.
proof fn lemma_section_begins_with_marker(target: Target, section: Section)
    ensures
        section.marker().is_prefix_of(section.text(target)),
{
    let marker = section.marker();
    let text = section.text(target);
    assert(marker.len() <= text.len());
    assert(text.subrange(0, marker.len() as int) =~= marker);
}

/// The program is its sections, one after the other: what stands in front
/// of a section, then the section, then what stands in front of the next.
proof fn lemma_sections_follow_each_other(target: Target)
    ensures
        Section::Header.text_before(target) == Seq::<char>::empty(),
        Section::Directives.text_before(target) == Section::Header.text_before(target)
            + Section::Header.text(target),
        Section::Imports.text_before(target) == Section::Directives.text_before(target)
            + Section::Directives.text(target),
        Section::Uses.text_before(target) == Section::Imports.text_before(target)
            + Section::Imports.text(target),
        Section::Allocator.text_before(target) == Section::Uses.text_before(target)
            + Section::Uses.text(target),
        Section::Hooks.text_before(target) == Section::Allocator.text_before(target)
            + Section::Allocator.text(target),
        Section::Configuration.text_before(target) == Section::Hooks.text_before(target)
            + Section::Hooks.text(target),
        Section::UntypedSearch.text_before(target) == Section::Configuration.text_before(target)
            + Section::Configuration.text(target),
        Section::Main.text_before(target) == Section::UntypedSearch.text_before(target)
            + Section::UntypedSearch.text(target),
        Section::Trampoline.text_before(target) == Section::Main.text_before(target)
            + Section::Main.text(target),
        program_text(target) == Section::Trampoline.text_before(target)
            + Section::Trampoline.text(target),
{
    reveal_with_fuel(Section::text_before, 11);
    assert(Seq::<char>::empty() + header_section() =~= header_section());
}

/// Where a text begins with two parts, it begins with the first, and the
/// second stands right behind it.
proof fn lemma_prefix_parts(first: Seq<char>, second: Seq<char>, whole: Seq<char>)
    requires
        (first + second).is_prefix_of(whole),
    ensures
        first.is_prefix_of(whole),
        first.len() + second.len() <= whole.len(),
        whole.subrange(first.len() as int, (first.len() + second.len()) as int) == second,
{
    let both = first + second;
    assert(both =~= whole.subrange(0, both.len() as int));
    assert(first =~= whole.subrange(0, first.len() as int)) by {
        assert forall|i: int| 0 <= i < first.len() implies first[i] == whole[i] by {
            assert(both[i] == first[i]);
            assert(whole.subrange(0, both.len() as int)[i] == whole[i]);
        }
    }
    assert(whole.subrange(first.len() as int, (first.len() + second.len()) as int) =~= second) by {
        assert forall|i: int| 0 <= i < second.len() implies whole[first.len() + i] == second[i] by {
            assert(both[first.len() + i] == second[i]);
            assert(whole.subrange(0, both.len() as int)[first.len() + i] == whole[first.len() + i]);
        }
    }
}

/// Every section stands in the program, whole, at the offset that the
/// sections in front of it leave.
pub proof fn law_section_stands_at_its_offset(target: Target, section: Section)
    ensures
        0 <= section.start(target),
        section.start(target) + section.text(target).len() <= program_text(target).len(),
        program_text(target).subrange(
            section.start(target),
            section.start(target) + section.text(target).len(),
        ) == section.text(target),
{
    let whole = program_text(target);
    lemma_sections_follow_each_other(target);
    assert(whole.is_prefix_of(whole)) by {
        assert(whole.subrange(0, whole.len() as int) =~= whole);
    }
    lemma_prefix_parts(
        Section::Trampoline.text_before(target),
        Section::Trampoline.text(target),
        whole,
    );
    lemma_prefix_parts(Section::Main.text_before(target), Section::Main.text(target), whole);
    lemma_prefix_parts(
        Section::UntypedSearch.text_before(target),
        Section::UntypedSearch.text(target),
        whole,
    );
    lemma_prefix_parts(
        Section::Configuration.text_before(target),
        Section::Configuration.text(target),
        whole,
    );
    lemma_prefix_parts(Section::Hooks.text_before(target), Section::Hooks.text(target), whole);
    lemma_prefix_parts(
        Section::Allocator.text_before(target),
        Section::Allocator.text(target),
        whole,
    );
    lemma_prefix_parts(Section::Uses.text_before(target), Section::Uses.text(target), whole);
    lemma_prefix_parts(Section::Imports.text_before(target), Section::Imports.text(target), whole);
    lemma_prefix_parts(
        Section::Directives.text_before(target),
        Section::Directives.text(target),
        whole,
    );
    lemma_prefix_parts(Section::Header.text_before(target), Section::Header.text(target), whole);
}

/// The sections stand in one fixed order. Of any two sections, the marker
/// of the one that comes first in the list stands in the program at a
/// smaller offset than the marker of the other, whatever the target.
pub proof fn law_sections_in_order(target: Target, earlier: Section, later: Section)
    requires
        earlier.position() < later.position(),
    ensures
        0 <= earlier.start(target) < later.start(target),
        later.start(target) + later.marker().len() <= program_text(target).len(),
        program_text(target).subrange(
            earlier.start(target),
            earlier.start(target) + earlier.marker().len(),
        ) == earlier.marker(),
        program_text(target).subrange(
            later.start(target),
            later.start(target) + later.marker().len(),
        ) == later.marker(),
{
    lemma_marker_in_program(target, earlier);
    lemma_marker_in_program(target, later);
    lemma_sections_follow_each_other(target);
    lemma_section_is_not_empty(target, Section::Header);
    lemma_section_is_not_empty(target, Section::Directives);
    lemma_section_is_not_empty(target, Section::Imports);
    lemma_section_is_not_empty(target, Section::Uses);
    lemma_section_is_not_empty(target, Section::Allocator);
    lemma_section_is_not_empty(target, Section::Hooks);
    lemma_section_is_not_empty(target, Section::Configuration);
    lemma_section_is_not_empty(target, Section::UntypedSearch);
    lemma_section_is_not_empty(target, Section::Main);
}

/// No section is empty.
proof fn lemma_section_is_not_empty(target: Target, section: Section)
    ensures
        section.text(target).len() >= section.marker().len() > 0,
{
    lemma_markers_are_not_empty(section);
    lemma_section_begins_with_marker(target, section);
}

/// The marker of every section stands in the program where the section begins.
proof fn lemma_marker_in_program(target: Target, section: Section)
    ensures
        0 <= section.start(target),
        section.start(target) + section.marker().len() <= program_text(target).len(),
        program_text(target).subrange(
            section.start(target),
            section.start(target) + section.marker().len(),
        ) == section.marker(),
{
    law_section_stands_at_its_offset(target, section);
    lemma_section_begins_with_marker(target, section);
    let whole = program_text(target);
    let start = section.start(target);
    let text = section.text(target);
    let marker = section.marker();
    assert(whole.subrange(start, start + marker.len()) =~= marker) by {
        assert forall|i: int| 0 <= i < marker.len() implies whole[start + i] == marker[i] by {
            assert(whole.subrange(start, start + text.len())[i] == whole[start + i]);
            assert(text.subrange(0, marker.len() as int)[i] == text[i]);
        }
    }
}

/// A part of a part of a text stands in the text at the sum of the offsets.
proof fn lemma_part_of_part(
    whole: Seq<char>,
    start: int,
    text: Seq<char>,
    before: Seq<char>,
    part: Seq<char>,
    after: Seq<char>,
)
    requires
        0 <= start,
        start + text.len() <= whole.len(),
        whole.subrange(start, start + text.len()) == text,
        text == before + part + after,
    ensures
        start + before.len() + part.len() <= whole.len(),
        whole.subrange(start + before.len(), start + before.len() + part.len()) == part,
{
    let from = start + before.len();
    assert(whole.subrange(from, from + part.len()) =~= part) by {
        assert forall|i: int| 0 <= i < part.len() implies whole[from + i] == part[i] by {
            assert(whole.subrange(start, start + text.len())[before.len() + i] == whole[from + i]);
            assert(text[before.len() + i] == part[i]);
        }
    }
}

/// Generation is repeatable, and the program depends on nothing but the
/// architecture, the module's name, the configuration constants and the
/// start-up code of that one architecture: two targets that agree in these
/// have the same program, character for character.
pub proof fn law_generation_is_repeatable(first: Target, second: Target)
    requires
        first.arch == second.arch,
        first.module == second.module,
        first.constants == second.constants,
        first.trampolines.of(first.arch) == second.trampolines.of(second.arch),
    ensures
        program_text(first) == program_text(second),
{
}

/// Every architecture has its entry in the table, and the program of a
/// target is written with that entry: its register set-up assigns the
/// program counter and the stack pointer under the names of the target's
/// architecture, and the program ends with the block that carries the
/// start-up code of that architecture.
pub proof fn law_architecture_entry_is_used(target: Target)
    ensures
        match target.arch {
            Arch::X86 => {
                &&& program_counter_name(target.arch) == "rip"@
                &&& stack_pointer_name(target.arch) == "rsp"@
                &&& target.trampolines.of(target.arch) == target.trampolines.x86
            },
            Arch::X86_64 => {
                &&& program_counter_name(target.arch) == "rip"@
                &&& stack_pointer_name(target.arch) == "rsp"@
                &&& target.trampolines.of(target.arch) == target.trampolines.x86_64
            },
            Arch::Armv7 => {
                &&& program_counter_name(target.arch) == "pc"@
                &&& stack_pointer_name(target.arch) == "sp"@
                &&& target.trampolines.of(target.arch) == target.trampolines.armv7
            },
            Arch::Aarch64 => {
                &&& program_counter_name(target.arch) == "pc"@
                &&& stack_pointer_name(target.arch) == "sp"@
                &&& target.trampolines.of(target.arch) == target.trampolines.aarch64
            },
        },
        0 <= register_setup_start(target),
        register_setup_start(target) + register_setup(target.arch, target.module).len()
            <= program_text(target).len(),
        program_text(target).subrange(
            register_setup_start(target),
            register_setup_start(target) + register_setup(target.arch, target.module).len(),
        ) == guarded_entry(program_counter_name(target.arch), target.module, true) + guarded_entry(
            program_counter_name(target.arch),
            target.module,
            false,
        ) + stack_assignment(stack_pointer_name(target.arch)),
        trampoline_section(target.trampolines.of(target.arch)).len() <= program_text(target).len(),
        program_text(target).subrange(
            program_text(target).len() - trampoline_section(
                target.trampolines.of(target.arch),
            ).len(),
            program_text(target).len() as int,
        ) == trampoline_section(target.trampolines.of(target.arch)),
{
    law_section_stands_at_its_offset(target, Section::Main);
    lemma_part_of_part(
        program_text(target),
        Section::Main.start(target),
        Section::Main.text(target),
        main_before_registers(),
        register_setup(target.arch, target.module),
        main_after_registers(),
    );
    law_section_stands_at_its_offset(target, Section::Trampoline);
    lemma_sections_follow_each_other(target);
}

/// The configuration constants stand in the program as they were handed in,
/// and in the order in which they were handed in: where the constants are
/// the text `first` followed by the text `second`, the namespace holds
/// `first` and, right behind it, `second`.
pub proof fn law_constants_keep_their_order(target: Target, first: Seq<char>, second: Seq<char>)
    requires
        target.constants == first + second,
    ensures
        0 <= constants_start(target),
        constants_start(target) + first.len() + second.len() <= program_text(target).len(),
        program_text(target).subrange(
            constants_start(target),
            constants_start(target) + first.len(),
        ) == first,
        program_text(target).subrange(
            constants_start(target) + first.len(),
            constants_start(target) + first.len() + second.len(),
        ) == second,
{
    law_section_stands_at_its_offset(target, Section::Configuration);
    let whole = program_text(target);
    let start = Section::Configuration.start(target);
    let text = Section::Configuration.text(target);
    assert(text =~= (CONFIG_MARK@ + CONFIG_OPEN@) + first + (second + CONFIG_CLOSE@));
    lemma_part_of_part(whole, start, text, CONFIG_MARK@ + CONFIG_OPEN@, first, second + CONFIG_CLOSE@);
    assert(text =~= (CONFIG_MARK@ + CONFIG_OPEN@ + first) + second + CONFIG_CLOSE@);
    lemma_part_of_part(whole, start, text, CONFIG_MARK@ + CONFIG_OPEN@ + first, second, CONFIG_CLOSE@);
}

/// The two entry points exclude each other. The register set-up assigns the
/// program counter twice: once to the test entry, under the guard of test
/// builds, and once to the production entry, under a guard whose condition
/// is the negation of the first. The two guards differ and the two symbols
/// differ, so a build keeps one assignment, and with it one symbol.
pub proof fn law_entry_points_exclude_each_other(arch: Arch, module: Seq<char>)
    ensures
        register_setup(arch, module) == feature_guard(true) + entry_assignment(
            program_counter_name(arch),
            entry_symbol(module, true),
        ) + (feature_guard(false) + entry_assignment(
            program_counter_name(arch),
            entry_symbol(module, false),
        )) + stack_assignment(stack_pointer_name(arch)),
        guard_condition(false) == NEGATION_OPEN@ + guard_condition(true) + NEGATION_CLOSE@,
        feature_guard(true) != feature_guard(false),
        entry_symbol(module, true) == module + TEST_ENTRY@,
        entry_symbol(module, false) == module + PRODUCTION_ENTRY@,
        entry_symbol(module, true) != entry_symbol(module, false),
{
    reveal_strlit("::run");
    reveal_strlit("::fel4_test::run");
    reveal_strlit("not(");
    reveal_strlit(")");
    assert(entry_symbol(module, true).len() != entry_symbol(module, false).len());
    assert(feature_guard(true).len() != feature_guard(false).len());
}

/// The architectures are these four and no other.
pub proof fn law_architectures_are_four(arch: Arch)
    ensures
        arch == Arch::X86 || arch == Arch::X86_64 || arch == Arch::Armv7 || arch == Arch::Aarch64,
{
}

/// The preamble begins with the header and ends with the last of the
/// conditional imports, whatever the module is called. The `use`
/// declarations are no part of it.
pub proof fn law_preamble_ends_with_the_conditional_imports(module: Seq<char>)
    ensures
        HEADER_MARK@.is_prefix_of(preamble(module)),
        PROPTEST_IMPORT@.len() <= preamble(module).len(),
        preamble(module).subrange(
            preamble(module).len() - PROPTEST_IMPORT@.len(),
            preamble(module).len() as int,
        ) == PROPTEST_IMPORT@,
{
    let text = preamble(module);
    assert(text.subrange(0, HEADER_MARK@.len() as int) =~= HEADER_MARK@);
    assert(text.subrange(text.len() - PROPTEST_IMPORT@.len(), text.len() as int)
        =~= PROPTEST_IMPORT@);
}

/// Each of the first three steps of the boot sequence carries a message of
/// its own for the case that it fails, and the registers are set only behind
/// all three: the function that runs the boot sequence holds the search with
/// its message, the retype with its message and the configuration with its
/// message, in this order, then the top of the stack, then the register
/// set-up. No message is empty, and no two are the same.
pub proof fn law_checked_steps_carry_their_messages(arch: Arch, module: Seq<char>)
    ensures
        main_section(arch, module) == MAIN_MARK@ + MAIN_OPEN@ + (SEARCH_CALL@ + SEARCH_MESSAGE@
            + SEARCH_CLOSE@) + (RETYPE_CALL@ + RETYPE_MESSAGE@ + ASSERT_CLOSE@) + (CONFIGURE_CALL@
            + CONFIGURE_MESSAGE@ + ASSERT_CLOSE@) + stack_top_step() + register_setup(arch, module)
            + main_after_registers(),
        SEARCH_MESSAGE@.len() > 0,
        RETYPE_MESSAGE@.len() > 0,
        CONFIGURE_MESSAGE@.len() > 0,
        SEARCH_MESSAGE@ != RETYPE_MESSAGE@,
        SEARCH_MESSAGE@ != CONFIGURE_MESSAGE@,
        RETYPE_MESSAGE@ != CONFIGURE_MESSAGE@,
{
    reveal_strlit("Failed to find untyped memory");
    reveal_strlit("Failed to retype untyped memory");
    reveal_strlit("Failed to configure TCB");
    assert(SEARCH_MESSAGE@.len() == 29);
    assert(RETYPE_MESSAGE@.len() == 31);
    assert(CONFIGURE_MESSAGE@.len() == 23);
}

} // verus!
