use vstd::prelude::*;

verus! {

/// First line of every emitted program: the notice of where the file comes from.
pub const HEADER_MARK: &'static str = "// NOTE: this file is generated by fel4";

/// Rest of the header comment, warning against edits by hand.
pub const HEADER_REST: &'static str = "
// NOTE: Don't edit it here; your changes will be lost at the next build!
";

/// First of the language-mode directives: the program is freestanding.
pub const DIRECTIVES_MARK: &'static str = "#![no_std]";

/// The feature declarations that follow `#![no_std]`.
pub const DIRECTIVES_REST: &'static str = "
#![cfg_attr(feature = \"alloc\", feature(alloc))]
#![feature(lang_items, core_intrinsics)]
#![feature(global_asm)]
#![cfg_attr(feature = \"alloc\", feature(global_allocator))]
#![feature(panic_info_message)]\n\n\n";

/// Import of the kernel bindings, the first import declaration.
pub const IMPORTS_MARK: &'static str = "extern crate sel4_sys;";

/// Opens the import of the task module; the module's name follows.
pub const MODULE_IMPORT_OPEN: &'static str = "
extern crate ";

/// Closes the import of the task module.
pub const MODULE_IMPORT_CLOSE: &'static str = ";
";

/// Imports of the allocator crates, each active only with the `alloc` feature.
pub const ALLOCATOR_IMPORTS: &'static str = "#[cfg(feature = \"alloc\")]
extern crate wee_alloc;
#[cfg(feature = \"alloc\")]
extern crate alloc;
";

/// Import of the `proptest` library, active only in test builds that have
/// an allocator. It is the last line of the preamble.
pub const PROPTEST_IMPORT: &'static str = "#[cfg(all(feature = \"test\", feature = \"alloc\"))]
#[macro_use]
extern crate proptest;
";

/// Start of the `use` declarations: a blank line and the first of them.
pub const USES_MARK: &'static str = "
use core::intrinsics;";

/// The other `use` declarations that every emitted program needs.
pub const USES_REST: &'static str = "
use core::panic::PanicInfo;
use core::mem;
use sel4_sys::*;

";

/// Start of the allocator declaration, active only with the `alloc` feature.
pub const ALLOCATOR_MARK: &'static str = "#[cfg(feature = \"alloc\")]
#[global_allocator]";

/// The allocator itself.
pub const ALLOCATOR_REST: &'static str = "
static ALLOCATOR: wee_alloc::WeeAlloc = wee_alloc::WeeAlloc::INIT;

";

/// Start of the runtime hooks: the cell that holds the boot descriptor.
pub const HOOKS_MARK: &'static str = "pub static mut BOOTINFO: *mut seL4_BootInfo";

/// The runtime hooks of a freestanding root task: the entry hook that
/// registers the boot descriptor once, the termination hook, and the panic,
/// exception-personality and out-of-memory hooks, which all end in an abort.
pub const HOOKS_REST: &'static str = r##" = (0 as *mut seL4_BootInfo);
static mut RUN_ONCE: bool = false;

#[no_mangle]
pub unsafe extern "C" fn __sel4_start_init_boot_info(
    bootinfo: *mut seL4_BootInfo,
) {
    if !RUN_ONCE {
        BOOTINFO = bootinfo;
        RUN_ONCE = true;
        seL4_SetUserData((*bootinfo).ipcBuffer as usize as seL4_Word);
    }
}

#[lang = "termination"]
trait Termination {
    fn report(self) -> i32;
}

impl Termination for () {
    fn report(self) -> i32 {
        0
    }
}

#[lang = "start"]
#[no_mangle]
fn lang_start<T: Termination + 'static>(
    main: fn() -> T,
    _argc: isize,
    _argv: *const *const u8,
) -> isize {
    main();
    panic!("Root task should never return from main!");
}

#[panic_handler]
#[no_mangle]
fn panic(info: &PanicInfo) -> ! {
    #[cfg(feature = "KernelPrinting")]
    {
        use core::fmt::Write;

        if let Some(loc) = info.location() {
            let _ = write!(
                sel4_sys::DebugOutHandle,
                "panic at {}:{}: ",
                loc.file(),
                loc.line()
            );
        } else {
            let _ = write!(
                sel4_sys::DebugOutHandle,
                "panic: "
            );
        }

        if let Some(fmt) = info.message() {
            let _ = sel4_sys::DebugOutHandle.write_fmt(*fmt);
        }
        let _ = sel4_sys::DebugOutHandle.write_char('\n');

        let _ = write!(
            sel4_sys::DebugOutHandle,
            "----- aborting from panic -----\n"
        );
    }
    unsafe { intrinsics::abort() }
}

#[lang = "eh_personality"]
#[no_mangle]
pub fn eh_personality() {
    #[cfg(feature = "KernelPrinting")]
    {
        use core::fmt::Write;
        let _ = write!(
            sel4_sys::DebugOutHandle,
            "----- aborting from eh_personality -----\n"
        );
    }
    unsafe {
        core::intrinsics::abort();
    }
}

#[lang = "oom"]
#[no_mangle]
pub extern "C" fn oom() -> ! {
    #[cfg(feature = "KernelPrinting")]
    {
        use core::fmt::Write;
        let _ = write!(
            sel4_sys::DebugOutHandle,
            "----- aborting from out-of-memory -----\n"
        );
    }
    unsafe {
        core::intrinsics::abort()
    }
}

"##;

/// Start of the configuration block.
pub const CONFIG_MARK: &'static str = "// include the seL4 kernel configurations";

/// Opens the namespace that holds the kernel's build configuration.
pub const CONFIG_OPEN: &'static str = "
#[allow(dead_code)]
#[allow(non_upper_case_globals)]
pub mod sel4_config {
";

/// Closes the configuration namespace.
pub const CONFIG_CLOSE: &'static str = "}


";

/// Start of the boot sequence: the helper that searches for untyped memory.
pub const BOOT_MARK: &'static str = "fn get_untyped(";

/// The first-fit search over the boot descriptor's untyped memory: the
/// entries are tried in rising order, and the first that is large enough wins.
pub const UNTYPED_SEARCH_REST: &'static str = "info: &seL4_BootInfo, size_bytes: usize) -> Option<seL4_CPtr> {
    let mut idx = 0;
    for i in info.untyped.start..info.untyped.end {
        if (1 << info.untypedList[idx].sizeBits) >= size_bytes {
            return Some(i);
        }
        idx += 1;
    }
    None
}

";

/// Opens the declaration of the child's stack: its size in words, and the
/// name of the buffer.
pub const STACK_DECLARATION_OPEN: &'static str = "const CHILD_STACK_SIZE: usize = 4096;
static mut CHILD_STACK: *const ";

/// The type of the buffer that serves as the child's stack.
pub const STACK_TYPE: &'static str = "[u64; CHILD_STACK_SIZE]";

/// Closes the declaration of the child's stack.
pub const STACK_DECLARATION_CLOSE: &'static str = " =
    &[0; CHILD_STACK_SIZE];

        
";

/// Start of the function that runs the boot sequence.
pub const MAIN_MARK: &'static str = "fn main() {";

/// The capabilities that the boot sequence works with.
pub const MAIN_OPEN: &'static str = "
    let bootinfo = unsafe { &*BOOTINFO };
    let cspace_cap = seL4_CapInitThreadCNode;
    let pd_cap = seL4_CapInitThreadVSpace;
    let tcb_cap = bootinfo.empty.start;
";

/// First step: the search for untyped memory that can hold a thread
/// control block, up to the message with which the program ends when there
/// is none.
pub const SEARCH_CALL: &'static str =
    "    let untyped = get_untyped(bootinfo, 1 << seL4_TCBBits).expect(\"";

/// What the program reports when no untyped memory is large enough.
pub const SEARCH_MESSAGE: &'static str = "Failed to find untyped memory";

/// Closes the search.
pub const SEARCH_CLOSE: &'static str = "\");
";

/// Second step: the untyped memory becomes a thread control block. The
/// text ends in front of the message of the assertion on the call's status.
pub const RETYPE_CALL: &'static str = "    let retype_err: seL4_Error = unsafe {
        seL4_Untyped_Retype(
            untyped,
            api_object_seL4_TCBObject.into(),
            seL4_TCBBits.into(),
            cspace_cap.into(),
            cspace_cap.into(),
            seL4_WordBits.into(),
            tcb_cap,
            1,
        )
    };

    assert!(retype_err == 0, \"";

/// What the program reports when the retype fails.
pub const RETYPE_MESSAGE: &'static str = "Failed to retype untyped memory";

/// Third step: the thread is bound to the root task's capability space and
/// address space, with no fault handler and no guard. The text ends in
/// front of the message of the assertion on the call's status.
pub const CONFIGURE_CALL: &'static str = "    let tcb_err: seL4_Error = unsafe {
        seL4_TCB_Configure(
            tcb_cap,
            seL4_CapNull.into(),
            cspace_cap.into(),
            seL4_NilData.into(),
            pd_cap.into(),
            seL4_NilData.into(),
            0,
            0,
        )
    };

    assert!(tcb_err == 0, \"";

/// What the program reports when the thread cannot be configured.
pub const CONFIGURE_MESSAGE: &'static str = "Failed to configure TCB";

/// Closes an assertion on a call's status.
pub const ASSERT_CLOSE: &'static str = "\");

";

/// Fourth step, before the registers are set: the top of the child's stack
/// is the address of the buffer plus the size in bytes of the type that
/// follows this text.
pub const STACK_TOP_OPEN: &'static str = "    let stack_base = unsafe { CHILD_STACK as usize };
    let stack_top = stack_base + mem::size_of::<";

/// Closes the computation of the stack's top, and makes an empty register set.
pub const STACK_TOP_CLOSE: &'static str = ">();
    let mut regs: seL4_UserContext = unsafe { mem::zeroed() };
";

/// Fifth step: the registers are written, two of them valid, the thread
/// gets the highest priority and is resumed. The status of these three
/// calls is dropped.
pub const START_STEP: &'static str = "
    let _: u32 =
        unsafe { seL4_TCB_WriteRegisters(tcb_cap, 0, 0, 2, &mut regs) };
    let _: u32 = unsafe {
        seL4_TCB_SetPriority(tcb_cap, seL4_CapInitThreadTCB.into(), 255)
    };
    let _: u32 = unsafe { seL4_TCB_Resume(tcb_cap) };
";

/// The root thread yields for ever.
pub const IDLE_STEP: &'static str = "    loop {
        unsafe {
            seL4_Yield();
        }
    }
}
        
";

/// Opens the raw block that carries the trampoline.
pub const TRAMPOLINE_MARK: &'static str = "global_asm!(r###\"";

/// Closes the raw block that carries the trampoline.
pub const TRAMPOLINE_CLOSE: &'static str = "\"###);

";

/// Opens a conditional-compilation guard in front of a statement.
pub const GUARD_OPEN: &'static str = "    #[cfg(";

/// Opens the negation of a guard's condition.
pub const NEGATION_OPEN: &'static str = "not(";

/// Closes the negation of a guard's condition.
pub const NEGATION_CLOSE: &'static str = ")";

/// The condition under which the program is built for testing.
pub const TEST_CONDITION: &'static str = "feature = \"test\"";

/// Closes a guard.
pub const GUARD_CLOSE: &'static str = ")]
";

/// Opens an assignment to a field of the register set inside a block.
pub const ENTRY_OPEN: &'static str = "    { regs.";

/// Stands between the field and the value assigned to it.
pub const ASSIGN: &'static str = " = ";

/// Closes the assignment of the entry point.
pub const ENTRY_CLOSE: &'static str = " as seL4_Word; }
";

/// Path, below the task module, of the entry point used in production.
pub const PRODUCTION_ENTRY: &'static str = "::run";

/// Path, below the task module, of the entry point used when testing.
pub const TEST_ENTRY: &'static str = "::fel4_test::run";

/// Opens the assignment of the stack pointer.
pub const STACK_OPEN: &'static str = "    regs.";

/// Closes the assignment of the stack pointer: the top of the child's stack.
pub const STACK_CLOSE: &'static str = " = stack_top as seL4_Word;
";

} // verus!
