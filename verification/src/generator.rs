use vstd::prelude::*;
use vstd::string::StringExecFns;
use crate::arch::{Arch, ArchTable};
use crate::program::{
    allocator_section, checked_step, child_stack_declaration, config_section,
    directives_section, entry_symbol, feature_guard, guarded_entry, header_section,
    hooks_section, imports_section, main_after_registers, main_before_registers, main_section,
    preamble, program_text, register_setup, stack_assignment, stack_top_step,
    trampoline_section, untyped_search_section, uses_section, Target,
};
use crate::text::{
    ALLOCATOR_IMPORTS, ALLOCATOR_MARK, ALLOCATOR_REST, ASSERT_CLOSE, ASSIGN, BOOT_MARK,
    CONFIGURE_CALL, CONFIGURE_MESSAGE, CONFIG_CLOSE, CONFIG_MARK, CONFIG_OPEN, DIRECTIVES_MARK,
    DIRECTIVES_REST, ENTRY_CLOSE, ENTRY_OPEN, GUARD_CLOSE, GUARD_OPEN, HEADER_MARK, HEADER_REST,
    HOOKS_MARK, HOOKS_REST, IDLE_STEP, IMPORTS_MARK, MAIN_MARK, MAIN_OPEN, MODULE_IMPORT_CLOSE,
    MODULE_IMPORT_OPEN, NEGATION_CLOSE, NEGATION_OPEN, PRODUCTION_ENTRY, PROPTEST_IMPORT,
    RETYPE_CALL, RETYPE_MESSAGE, SEARCH_CALL, SEARCH_CLOSE, SEARCH_MESSAGE, STACK_CLOSE,
    STACK_DECLARATION_CLOSE, STACK_DECLARATION_OPEN, STACK_OPEN, STACK_TOP_CLOSE, STACK_TOP_OPEN,
    STACK_TYPE, START_STEP, TEST_CONDITION, TEST_ENTRY, TRAMPOLINE_CLOSE, TRAMPOLINE_MARK,
    UNTYPED_SEARCH_REST, USES_MARK, USES_REST,
};

verus! {

/// Columns by which the configuration constants are indented inside their
/// namespace. Whoever serialises the flags is handed this depth.
pub const CONFIG_INDENT: usize = 4;

/// The header comment.
pub fn generate_header() -> (out: String)
    ensures
        out@ == header_section(),
{
    let mut out = String::from_str(HEADER_MARK);
    out.append(HEADER_REST);
    out
}

/// The language-mode directives.
pub fn generate_directives() -> (out: String)
    ensures
        out@ == directives_section(),
{
    let mut out = String::from_str(DIRECTIVES_MARK);
    out.append(DIRECTIVES_REST);
    out
}

/// The import declarations of a program whose task lives in `module`.
pub fn generate_imports(module: &str) -> (out: String)
    ensures
        out@ == imports_section(module@),
{
    let mut out = String::from_str(IMPORTS_MARK);
    out.append(MODULE_IMPORT_OPEN);
    out.append(module);
    out.append(MODULE_IMPORT_CLOSE);
    out.append(ALLOCATOR_IMPORTS);
    out.append(PROPTEST_IMPORT);
    out
}

/// The `use` declarations.
pub fn generate_uses() -> (out: String)
    ensures
        out@ == uses_section(),
{
    let mut out = String::from_str(USES_MARK);
    out.append(USES_REST);
    out
}

/// The declaration of the global allocator.
pub fn generate_allocator() -> (out: String)
    ensures
        out@ == allocator_section(),
{
    let mut out = String::from_str(ALLOCATOR_MARK);
    out.append(ALLOCATOR_REST);
    out
}

/// The runtime hooks. They are the same for every target.
pub fn generate_hooks() -> (out: String)
    ensures
        out@ == hooks_section(),
{
    let mut out = String::from_str(HOOKS_MARK);
    out.append(HOOKS_REST);
    out
}

/// The declaration of the buffer that serves as the child's stack.
pub fn generate_child_stack_declaration() -> (out: String)
    ensures
        out@ == child_stack_declaration(),
{
    let mut out = String::from_str(STACK_DECLARATION_OPEN);
    out.append(STACK_TYPE);
    out.append(STACK_DECLARATION_CLOSE);
    out
}

/// The helper that searches the untyped memory, and the child's stack.
pub fn generate_untyped_search() -> (out: String)
    ensures
        out@ == untyped_search_section(),
{
    let mut out = String::from_str(BOOT_MARK);
    out.append(UNTYPED_SEARCH_REST);
    out.append(generate_child_stack_declaration().as_str());
    out
}

/// The statements that compute the top of the child's stack.
pub fn generate_stack_top_step() -> (out: String)
    ensures
        out@ == stack_top_step(),
{
    let mut out = String::from_str(STACK_TOP_OPEN);
    out.append(STACK_TYPE);
    out.append(STACK_TOP_CLOSE);
    out
}

/// The guard that keeps the statement below it in test builds (`for_test`)
/// or in all other builds.
pub fn generate_feature_guard(for_test: bool) -> (out: String)
    ensures
        out@ == feature_guard(for_test),
{
    let mut out = String::from_str(GUARD_OPEN);
    if for_test {
        out.append(TEST_CONDITION);
    } else {
        let mut condition = String::from_str(NEGATION_OPEN);
        condition.append(TEST_CONDITION);
        condition.append(NEGATION_CLOSE);
        out.append(condition.as_str());
    }
    out.append(GUARD_CLOSE);
    out
}

/// The entry symbol of the task in `module`.
pub fn generate_entry_symbol(module: &str, for_test: bool) -> (out: String)
    ensures
        out@ == entry_symbol(module@, for_test),
{
    let mut out = String::from_str(module);
    if for_test {
        out.append(TEST_ENTRY);
    } else {
        out.append(PRODUCTION_ENTRY);
    }
    out
}

/// A guard and the assignment of the entry point that it keeps.
pub fn generate_guarded_entry(program_counter: &str, module: &str, for_test: bool) -> (out: String)
    ensures
        out@ == guarded_entry(program_counter@, module@, for_test),
{
    let symbol = generate_entry_symbol(module, for_test);
    let mut assignment = String::from_str(ENTRY_OPEN);
    assignment.append(program_counter);
    assignment.append(ASSIGN);
    assignment.append(symbol.as_str());
    assignment.append(ENTRY_CLOSE);
    let mut out = generate_feature_guard(for_test);
    out.append(assignment.as_str());
    out
}

/// The assignment of the stack pointer.
pub fn generate_stack_assignment(stack_pointer: &str) -> (out: String)
    ensures
        out@ == stack_assignment(stack_pointer@),
{
    let mut out = String::from_str(STACK_OPEN);
    out.append(stack_pointer);
    out.append(STACK_CLOSE);
    out
}

/// A step of the boot sequence that must not fail: the call, then the
/// message that the program reports when the call fails.
pub fn generate_checked_step(call: &str, message: &str, close: &str) -> (out: String)
    ensures
        out@ == checked_step(call@, message@, close@),
{
    let mut out = String::from_str(call);
    out.append(message);
    out.append(close);
    out
}

/// The boot sequence up to the register set-up: search, retype, configure,
/// each with the message of its failure, and the top of the child's stack.
pub fn generate_main_before_registers() -> (out: String)
    ensures
        out@ == main_before_registers(),
{
    let mut out = String::from_str(MAIN_MARK);
    out.append(MAIN_OPEN);
    out.append(generate_checked_step(SEARCH_CALL, SEARCH_MESSAGE, SEARCH_CLOSE).as_str());
    out.append(generate_checked_step(RETYPE_CALL, RETYPE_MESSAGE, ASSERT_CLOSE).as_str());
    out.append(generate_checked_step(CONFIGURE_CALL, CONFIGURE_MESSAGE, ASSERT_CLOSE).as_str());
    out.append(generate_stack_top_step().as_str());
    out
}

/// The boot sequence behind the register set-up: start the thread, idle.
pub fn generate_main_after_registers() -> (out: String)
    ensures
        out@ == main_after_registers(),
{
    let mut out = String::from_str(START_STEP);
    out.append(IDLE_STEP);
    out
}

/// Writes the root task of one target.
pub struct Generator {
    package_module_name: String,
    arch: Arch,
    config_constants: String,
    table: ArchTable,
}

impl View for Generator {
    type V = Target;

    closed spec fn view(&self) -> Target {
        Target {
            arch: self.arch,
            module: self.package_module_name@,
            constants: self.config_constants@,
            trampolines: self.table@,
        }
    }
}

impl Generator {
    /// A generator for the task in `package_module_name`, on `arch`.
    /// `config_constants` is the text of the configuration constants, already
    /// serialised; `table` holds the start-up code.
    pub fn new(package_module_name: &str, arch: Arch, config_constants: &str, table: ArchTable) -> (generator: Generator)
        ensures
            generator@ == (Target {
                arch,
                module: package_module_name@,
                constants: config_constants@,
                trampolines: table@,
            }),
    {
        Generator {
            package_module_name: String::from_str(package_module_name),
            arch,
            config_constants: String::from_str(config_constants),
            table,
        }
    }

    /// The whole program. Generation cannot fail: the text depends on the
    /// target alone.
    pub fn generate(&self) -> (out: String)
        ensures
            out@ == program_text(self@),
    {
        let mut out = self.generate_features_and_crates();
        out.append(generate_uses().as_str());
        out.append(generate_allocator().as_str());
        out.append(generate_hooks().as_str());
        out.append(self.generate_config_block().as_str());
        out.append(generate_untyped_search().as_str());
        out.append(self.generate_main().as_str());
        out.append(self.generate_trampoline().as_str());
        out
    }

    /// Header, directives and imports. The text ends with the last of the
    /// conditional imports.
    pub fn generate_features_and_crates(&self) -> (out: String)
        ensures
            out@ == preamble(self@.module),
    {
        let mut out = generate_header();
        out.append(generate_directives().as_str());
        out.append(generate_imports(self.package_module_name.as_str()).as_str());
        out
    }

    /// The configuration namespace: it is opened, the constants follow as
    /// they were handed in, and it is closed.
    pub fn generate_config_block(&self) -> (out: String)
        ensures
            out@ == config_section(self@.constants),
    {
        let mut out = String::from_str(CONFIG_MARK);
        out.append(CONFIG_OPEN);
        out.append(self.config_constants.as_str());
        out.append(CONFIG_CLOSE);
        out
    }

    /// The register set-up, with the field names of the target's architecture.
    pub fn generate_register_setup(&self) -> (out: String)
        ensures
            out@ == register_setup(self@.arch, self@.module),
    {
        let entry = self.table.entry(self.arch);
        let module = self.package_module_name.as_str();
        let mut out = generate_guarded_entry(entry.program_counter, module, true);
        out.append(generate_guarded_entry(entry.program_counter, module, false).as_str());
        out.append(generate_stack_assignment(entry.stack_pointer).as_str());
        out
    }

    /// The function that runs the boot sequence: retype, configure, set the
    /// registers, start the thread, idle.
    pub fn generate_main(&self) -> (out: String)
        ensures
            out@ == main_section(self@.arch, self@.module),
    {
        let mut out = generate_main_before_registers();
        out.append(self.generate_register_setup().as_str());
        out.append(generate_main_after_registers().as_str());
        out
    }

    /// The trampoline of the target's architecture, in its raw block.
    pub fn generate_trampoline(&self) -> (out: String)
        ensures
            out@ == trampoline_section(self@.trampolines.of(self@.arch)),
    {
        let entry = self.table.entry(self.arch);
        let mut out = String::from_str(TRAMPOLINE_MARK);
        out.append(entry.trampoline);
        out.append(TRAMPOLINE_CLOSE);
        out
    }
}

} // verus!
