use vstd::prelude::*;
use crate::arch::{program_counter_name, stack_pointer_name, Arch, Trampolines};
use crate::text::{
    ALLOCATOR_IMPORTS, ALLOCATOR_MARK, ALLOCATOR_REST, ASSERT_CLOSE, ASSIGN, BOOT_MARK,
    CONFIGURE_CALL, CONFIGURE_MESSAGE, CONFIG_CLOSE, CONFIG_MARK, CONFIG_OPEN, DIRECTIVES_MARK,
    DIRECTIVES_REST, ENTRY_CLOSE, ENTRY_OPEN, GUARD_CLOSE, GUARD_OPEN, HEADER_MARK, HEADER_REST,
    HOOKS_MARK, HOOKS_REST, IDLE_STEP, IMPORTS_MARK, MAIN_MARK, MAIN_OPEN, MODULE_IMPORT_CLOSE,
    MODULE_IMPORT_OPEN, NEGATION_CLOSE, NEGATION_OPEN, PRODUCTION_ENTRY, PROPTEST_IMPORT,
    RETYPE_CALL, RETYPE_MESSAGE, SEARCH_CALL, SEARCH_CLOSE, SEARCH_MESSAGE, STACK_CLOSE,
    STACK_DECLARATION_CLOSE, STACK_DECLARATION_OPEN, STACK_OPEN, STACK_TOP_CLOSE, STACK_TOP_OPEN,
    STACK_TYPE, START_STEP, TEST_CONDITION, TEST_ENTRY, TRAMPOLINE_CLOSE, TRAMPOLINE_MARK,
    UNTYPED_SEARCH_REST, USES_MARK, USES_REST,
};

verus! {

/// What a root task is generated from.
pub struct Target {
    /// The architecture that the program is to run on.
    pub arch: Arch,
    /// Name of the module that holds the task's logic.
    pub module: Seq<char>,
    /// The declarations of the kernel's configuration constants, as the
    /// flag serialiser wrote them.
    pub constants: Seq<char>,
    /// The start-up code of every architecture.
    pub trampolines: Trampolines,
}

/// The comment that marks the program as generated.
pub open spec fn header_section() -> Seq<char> {
    HEADER_MARK@ + HEADER_REST@
}

/// The directives that make the program freestanding.
pub open spec fn directives_section() -> Seq<char> {
    DIRECTIVES_MARK@ + DIRECTIVES_REST@
}

/// The imports: the kernel bindings, the task module, then the crates that
/// a feature activates.
pub open spec fn imports_section(module: Seq<char>) -> Seq<char> {
    IMPORTS_MARK@ + MODULE_IMPORT_OPEN@ + module + MODULE_IMPORT_CLOSE@ + ALLOCATOR_IMPORTS@
        + PROPTEST_IMPORT@
}

/// Header, directives and imports. The preamble ends with the last of the
/// conditional imports.
pub open spec fn preamble(module: Seq<char>) -> Seq<char> {
    header_section() + directives_section() + imports_section(module)
}

/// The `use` declarations.
pub open spec fn uses_section() -> Seq<char> {
    USES_MARK@ + USES_REST@
}

/// The declaration of the global allocator.
pub open spec fn allocator_section() -> Seq<char> {
    ALLOCATOR_MARK@ + ALLOCATOR_REST@
}

/// The runtime hooks.
pub open spec fn hooks_section() -> Seq<char> {
    HOOKS_MARK@ + HOOKS_REST@
}

/// The namespace of the configuration constants, around the constants.
pub open spec fn config_section(constants: Seq<char>) -> Seq<char> {
    CONFIG_MARK@ + CONFIG_OPEN@ + constants + CONFIG_CLOSE@
}

/// The declaration of the buffer that serves as the child's stack.
pub open spec fn child_stack_declaration() -> Seq<char> {
    STACK_DECLARATION_OPEN@ + STACK_TYPE@ + STACK_DECLARATION_CLOSE@
}

/// The helper that searches for untyped memory, and the child's stack.
pub open spec fn untyped_search_section() -> Seq<char> {
    BOOT_MARK@ + UNTYPED_SEARCH_REST@ + child_stack_declaration()
}

/// The statements that compute the top of the child's stack: the address
/// of the buffer plus the size in bytes of the buffer's type.
pub open spec fn stack_top_step() -> Seq<char> {
    STACK_TOP_OPEN@ + STACK_TYPE@ + STACK_TOP_CLOSE@
}

/// The condition of the guard that keeps a statement in test builds
/// (`for_test`) or in all other builds.
pub open spec fn guard_condition(for_test: bool) -> Seq<char> {
    if for_test {
        TEST_CONDITION@
    } else {
        NEGATION_OPEN@ + TEST_CONDITION@ + NEGATION_CLOSE@
    }
}

/// The guard line in front of a statement.
pub open spec fn feature_guard(for_test: bool) -> Seq<char> {
    GUARD_OPEN@ + guard_condition(for_test) + GUARD_CLOSE@
}

/// The symbol at which the new thread starts: the module's test entry in a
/// test build, its `run` otherwise.
pub open spec fn entry_symbol(module: Seq<char>, for_test: bool) -> Seq<char> {
    if for_test {
        module + TEST_ENTRY@
    } else {
        module + PRODUCTION_ENTRY@
    }
}

/// The statement that points the program counter at a symbol.
pub open spec fn entry_assignment(program_counter: Seq<char>, symbol: Seq<char>) -> Seq<char> {
    ENTRY_OPEN@ + program_counter + ASSIGN@ + symbol + ENTRY_CLOSE@
}

/// A guard and, below it, the assignment of the entry point that it keeps.
pub open spec fn guarded_entry(program_counter: Seq<char>, module: Seq<char>, for_test: bool) -> Seq<
    char,
> {
    feature_guard(for_test) + entry_assignment(program_counter, entry_symbol(module, for_test))
}

/// The statement that points the stack pointer at the top of the child's stack.
pub open spec fn stack_assignment(stack_pointer: Seq<char>) -> Seq<char> {
    STACK_OPEN@ + stack_pointer + STACK_CLOSE@
}

/// The register set-up of one architecture: the entry point for test
/// builds, the entry point for all other builds, and the stack pointer.
pub open spec fn register_setup(arch: Arch, module: Seq<char>) -> Seq<char> {
    guarded_entry(program_counter_name(arch), module, true) + guarded_entry(
        program_counter_name(arch),
        module,
        false,
    ) + stack_assignment(stack_pointer_name(arch))
}

/// A step of the boot sequence that must not fail: the call, the message
/// that the program reports when the call fails, and the end of the statement
/// that holds the message.
pub open spec fn checked_step(call: Seq<char>, message: Seq<char>, close: Seq<char>) -> Seq<char> {
    call + message + close
}

/// First step: the search for untyped memory. Without a result the program
/// ends with `SEARCH_MESSAGE`.
pub open spec fn search_step() -> Seq<char> {
    checked_step(SEARCH_CALL@, SEARCH_MESSAGE@, SEARCH_CLOSE@)
}

/// Second step: the retype. On any other status than success the program
/// ends with `RETYPE_MESSAGE`.
pub open spec fn retype_step() -> Seq<char> {
    checked_step(RETYPE_CALL@, RETYPE_MESSAGE@, ASSERT_CLOSE@)
}

/// Third step: the configuration of the thread. On any other status than
/// success the program ends with `CONFIGURE_MESSAGE`.
pub open spec fn configure_step() -> Seq<char> {
    checked_step(CONFIGURE_CALL@, CONFIGURE_MESSAGE@, ASSERT_CLOSE@)
}

/// What the function that runs the boot sequence holds in front of the
/// register set-up: the three checked steps, then the top of the stack.
pub open spec fn main_before_registers() -> Seq<char> {
    MAIN_MARK@ + MAIN_OPEN@ + search_step() + retype_step() + configure_step() + stack_top_step()
}

/// What the function that runs the boot sequence holds behind the register
/// set-up: the thread is started, and the root thread idles.
pub open spec fn main_after_registers() -> Seq<char> {
    START_STEP@ + IDLE_STEP@
}

/// The function that runs the boot sequence.
pub open spec fn main_section(arch: Arch, module: Seq<char>) -> Seq<char> {
    main_before_registers() + register_setup(arch, module) + main_after_registers()
}

/// The raw block that carries a trampoline.
pub open spec fn trampoline_section(trampoline: Seq<char>) -> Seq<char> {
    TRAMPOLINE_MARK@ + trampoline + TRAMPOLINE_CLOSE@
}

/// The whole program, section after section.
pub open spec fn program_text(target: Target) -> Seq<char> {
    preamble(target.module) + uses_section() + allocator_section() + hooks_section() + config_section(
        target.constants,
    ) + untyped_search_section() + main_section(target.arch, target.module) + trampoline_section(
        target.trampolines.of(target.arch),
    )
}

} // verus!
