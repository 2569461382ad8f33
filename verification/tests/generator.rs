use cmake_config::{Key, SimpleFlag};
use root_task_gen::arch::{Arch, ArchTable};
use root_task_gen::generator::{
    generate_allocator, generate_checked_step, generate_child_stack_declaration,
    generate_directives, generate_entry_symbol, generate_feature_guard, generate_guarded_entry,
    generate_header, generate_hooks, generate_imports, generate_main_after_registers,
    generate_main_before_registers, generate_stack_assignment, generate_stack_top_step,
    generate_untyped_search, generate_uses, Generator, CONFIG_INDENT,
};

const X86_START: &str = "x86:\n    movl $stack_top, %esp\n    call main\n";
const X86_64_START: &str = "x86_64:\n    leaq stack_top, %rsp\n    call main\n";
const ARMV7_START: &str = "armv7:\n    ldr sp, =stack_top\n    bl main\n";
const AARCH64_START: &str = "aarch64:\n    ldr x19, =stack_top\n    bl main\n";

fn table() -> ArchTable {
    ArchTable::new(X86_START, X86_64_START, ARMV7_START, AARCH64_START)
}

fn all_architectures() -> Vec<(Arch, &'static str, &'static str, &'static str)> {
    vec![
        (Arch::X86, "rip", "rsp", X86_START),
        (Arch::X86_64, "rip", "rsp", X86_64_START),
        (Arch::Armv7, "pc", "sp", ARMV7_START),
        (Arch::Aarch64, "pc", "sp", AARCH64_START),
    ]
}

fn count(text: &str, part: &str) -> usize {
    text.matches(part).count()
}

/// Stands in for the flag serialiser, which these tests cannot call: one
/// line per flag, indented, in the order of the flags.
fn serialise(flags: &[SimpleFlag], indent: usize) -> String {
    let mut text = String::new();
    for flag in flags {
        let item = flag.generate_rust_const_item().unwrap();
        text.push_str(&" ".repeat(indent));
        text.push_str(&item.code);
        text.push('\n');
    }
    text
}

#[test]
fn generation_is_repeatable() {
    for (arch, _, _, _) in all_architectures() {
        let first = Generator::new("demo_task", arch, "    pub const A:bool = true;\n", table());
        let second = Generator::new("demo_task", arch, "    pub const A:bool = true;\n", table());
        let once = first.generate();
        assert_eq!(once, first.generate());
        assert_eq!(once, second.generate());
    }
}

#[test]
fn program_ignores_start_up_code_of_other_architectures() {
    let first = Generator::new("task", Arch::Armv7, "", table());
    let other = ArchTable::new("one", "two", ARMV7_START, "four");
    let second = Generator::new("task", Arch::Armv7, "", other);
    assert_eq!(first.generate(), second.generate());
}

#[test]
fn table_has_an_entry_for_every_architecture() {
    let table = table();
    for (arch, program_counter, stack_pointer, start_up) in all_architectures() {
        let entry = table.entry(arch);
        assert_eq!(entry.program_counter, program_counter);
        assert_eq!(entry.stack_pointer, stack_pointer);
        assert_eq!(entry.trampoline, start_up);
    }
}

#[test]
fn every_architecture_uses_its_own_entry() {
    for (arch, program_counter, stack_pointer, start_up) in all_architectures() {
        let generator = Generator::new("demo_task", arch, "", table());
        let program = generator.generate();
        let setup = format!(
            "    #[cfg(feature = \"test\")]\n    {{ regs.{pc} = demo_task::fel4_test::run as seL4_Word; }}\n    #[cfg(not(feature = \"test\"))]\n    {{ regs.{pc} = demo_task::run as seL4_Word; }}\n    regs.{sp} = stack_top as seL4_Word;\n",
            pc = program_counter,
            sp = stack_pointer
        );
        assert_eq!(generator.generate_register_setup(), setup);
        assert_eq!(count(&program, &setup), 1);
        assert_eq!(count(&program, "regs."), 3);
        let block = format!("global_asm!(r###\"{}\"###);\n\n", start_up);
        assert_eq!(generator.generate_trampoline(), block);
        assert!(program.ends_with(&block));
        assert_eq!(count(&program, "global_asm!(r###\""), 1);
        for (_, _, _, other) in all_architectures() {
            assert_eq!(program.contains(other), other == start_up);
        }
    }
}

#[test]
fn constants_keep_the_order_in_which_they_came() {
    let flags = vec![
        SimpleFlag::Boolish(Key("Zeta".to_string()), false),
        SimpleFlag::Stringish(Key("Alpha".to_string()), "7".to_string()),
        SimpleFlag::Boolish(Key("Mid".to_string()), true),
    ];
    let orders: Vec<Vec<usize>> = vec![
        vec![0, 1, 2],
        vec![0, 2, 1],
        vec![1, 0, 2],
        vec![1, 2, 0],
        vec![2, 0, 1],
        vec![2, 1, 0],
    ];
    for order in orders {
        let permuted: Vec<SimpleFlag> = order.iter().map(|&i| flags[i].clone()).collect();
        let constants = serialise(&permuted, CONFIG_INDENT);
        let generator = Generator::new("task", Arch::Aarch64, &constants, table());
        let block = generator.generate_config_block();
        let program = generator.generate();
        assert!(program.contains(&block));
        let mut last = 0;
        for flag in &permuted {
            let line = format!("    {}\n", flag.generate_rust_const_item().unwrap().code);
            let at = block.find(&line).unwrap();
            assert!(at > last);
            assert_eq!(count(&block, &line), 1);
            last = at;
        }
        let expected = format!(
            "// include the seL4 kernel configurations\n#[allow(dead_code)]\n#[allow(non_upper_case_globals)]\npub mod sel4_config {{\n{}}}\n\n\n",
            constants
        );
        assert_eq!(block, expected);
    }
}

#[test]
fn configuration_block_without_constants() {
    let generator = Generator::new("task", Arch::X86, "", table());
    assert_eq!(
        generator.generate_config_block(),
        "// include the seL4 kernel configurations\n#[allow(dead_code)]\n#[allow(non_upper_case_globals)]\npub mod sel4_config {\n}\n\n\n"
    );
}

#[test]
fn indentation_of_the_constants_is_four_columns() {
    assert_eq!(CONFIG_INDENT, 4);
}

#[test]
fn entry_points_exclude_each_other() {
    for (arch, program_counter, _, _) in all_architectures() {
        let program = Generator::new("demo_task", arch, "", table()).generate();
        let test_entry = format!(
            "    #[cfg(feature = \"test\")]\n    {{ regs.{} = demo_task::fel4_test::run as seL4_Word; }}\n",
            program_counter
        );
        let production_entry = format!(
            "    #[cfg(not(feature = \"test\"))]\n    {{ regs.{} = demo_task::run as seL4_Word; }}\n",
            program_counter
        );
        assert_eq!(count(&program, &test_entry), 1);
        assert_eq!(count(&program, &production_entry), 1);
        assert_eq!(count(&program, "demo_task::fel4_test::run"), 1);
        assert_eq!(count(&program, "demo_task::run"), 1);
        assert_eq!(count(&program, "    #[cfg(feature = \"test\")]\n"), 1);
        assert_eq!(count(&program, "    #[cfg(not(feature = \"test\"))]\n"), 1);
    }
}

#[test]
fn guards_and_entry_symbols() {
    assert_eq!(generate_feature_guard(true), "    #[cfg(feature = \"test\")]\n");
    assert_eq!(generate_feature_guard(false), "    #[cfg(not(feature = \"test\"))]\n");
    assert_eq!(generate_entry_symbol("demo_task", true), "demo_task::fel4_test::run");
    assert_eq!(generate_entry_symbol("demo_task", false), "demo_task::run");
    assert_eq!(generate_entry_symbol("", false), "::run");
    assert_eq!(
        generate_guarded_entry("pc", "task", true),
        "    #[cfg(feature = \"test\")]\n    { regs.pc = task::fel4_test::run as seL4_Word; }\n"
    );
    assert_eq!(
        generate_guarded_entry("rip", "task", false),
        "    #[cfg(not(feature = \"test\"))]\n    { regs.rip = task::run as seL4_Word; }\n"
    );
    assert_eq!(generate_stack_assignment("rsp"), "    regs.rsp = stack_top as seL4_Word;\n");
    assert_eq!(generate_stack_assignment("sp"), "    regs.sp = stack_top as seL4_Word;\n");
}

#[test]
fn sections_stand_in_their_order() {
    let markers = [
        "// NOTE: this file is generated by fel4",
        "#![no_std]",
        "extern crate sel4_sys;",
        "\nuse core::intrinsics;",
        "#[cfg(feature = \"alloc\")]\n#[global_allocator]",
        "pub static mut BOOTINFO: *mut seL4_BootInfo",
        "// include the seL4 kernel configurations",
        "fn get_untyped(",
        "fn main() {",
        "global_asm!(r###\"",
    ];
    for (arch, _, _, _) in all_architectures() {
        let program =
            Generator::new("demo_task", arch, "    pub const A:bool = true;\n", table()).generate();
        let offsets: Vec<usize> = markers.iter().map(|m| program.find(m).unwrap()).collect();
        assert_eq!(offsets[0], 0);
        for pair in offsets.windows(2) {
            assert!(pair[0] < pair[1]);
        }
    }
}

#[test]
fn demo_task_on_x86_64() {
    let flags = vec![
        SimpleFlag::Boolish(Key("KernelPrinting".to_string()), true),
        SimpleFlag::Stringish(Key("KernelNumDomains".to_string()), "1".to_string()),
    ];
    let constants = serialise(&flags, CONFIG_INDENT);
    let generator = Generator::new("demo_task", Arch::X86_64, &constants, table());
    let program = generator.generate();
    assert!(program.contains("\nextern crate demo_task;\n"));
    assert!(program.contains(
        "pub mod sel4_config {\n    pub const KernelPrinting:bool = true;\n    pub const KernelNumDomains:&'static str = \"1\";\n}\n"
    ));
    assert!(program.contains("    { regs.rip = demo_task::run as seL4_Word; }\n"));
    assert!(program.contains("    { regs.rip = demo_task::fel4_test::run as seL4_Word; }\n"));
    assert!(program.contains("    regs.rsp = stack_top as seL4_Word;\n"));
    assert!(!program.contains("regs.pc"));
    assert!(!program.contains("regs.sp "));
    let opening = "global_asm!(r###\"";
    let closing = "\"###);\n\n";
    let at = program.find(opening).unwrap();
    assert!(program.ends_with(closing));
    let embedded = &program[at + opening.len()..program.len() - closing.len()];
    assert_eq!(embedded, X86_64_START);
}

#[test]
fn header_and_directives() {
    assert_eq!(
        generate_header(),
        "// NOTE: this file is generated by fel4\n// NOTE: Don't edit it here; your changes will be lost at the next build!\n"
    );
    assert_eq!(
        generate_directives(),
        "#![no_std]\n#![cfg_attr(feature = \"alloc\", feature(alloc))]\n#![feature(lang_items, core_intrinsics)]\n#![feature(global_asm)]\n#![cfg_attr(feature = \"alloc\", feature(global_allocator))]\n#![feature(panic_info_message)]\n\n\n"
    );
}

#[test]
fn imports_name_the_module_before_the_conditional_crates() {
    assert_eq!(
        generate_imports("demo_task"),
        "extern crate sel4_sys;\nextern crate demo_task;\n#[cfg(feature = \"alloc\")]\nextern crate wee_alloc;\n#[cfg(feature = \"alloc\")]\nextern crate alloc;\n#[cfg(all(feature = \"test\", feature = \"alloc\"))]\n#[macro_use]\nextern crate proptest;\n"
    );
}

#[test]
fn use_declarations_follow_the_imports() {
    assert_eq!(
        generate_uses(),
        "\nuse core::intrinsics;\nuse core::panic::PanicInfo;\nuse core::mem;\nuse sel4_sys::*;\n\n"
    );
    let generator = Generator::new("demo_task", Arch::X86, "", table());
    let program = generator.generate();
    let preamble = generator.generate_features_and_crates();
    assert!(program.starts_with(&preamble));
    assert!(program[preamble.len()..].starts_with(&generate_uses()));
    assert!(program[preamble.len() + generate_uses().len()..].starts_with(&generate_allocator()));
}

#[test]
fn preamble_ends_with_the_conditional_imports() {
    for module in ["demo_task", "", "extern crate proptest;"] {
        let generator = Generator::new(module, Arch::X86, "", table());
        let preamble = generator.generate_features_and_crates();
        assert!(preamble.starts_with(
            "// NOTE: this file is generated by fel4\n// NOTE: Don't edit it here; your changes will be lost at the next build!\n#![no_std]\n"
        ));
        assert!(preamble.contains("#![feature(panic_info_message)]\n\n\nextern crate sel4_sys;\n"));
        assert!(preamble.ends_with(
            "#[cfg(all(feature = \"test\", feature = \"alloc\"))]\n#[macro_use]\nextern crate proptest;\n"
        ));
        assert!(!preamble.contains("use core::"));
    }
}

#[test]
fn preamble_is_header_directives_and_imports() {
    let generator = Generator::new("demo_task", Arch::Armv7, "", table());
    let mut expected = generate_header();
    expected.push_str(&generate_directives());
    expected.push_str(&generate_imports("demo_task"));
    assert_eq!(generator.generate_features_and_crates(), expected);
}

#[test]
fn allocator_is_behind_its_feature() {
    assert_eq!(
        generate_allocator(),
        "#[cfg(feature = \"alloc\")]\n#[global_allocator]\nstatic ALLOCATOR: wee_alloc::WeeAlloc = wee_alloc::WeeAlloc::INIT;\n\n"
    );
}

#[test]
fn hooks_hold_the_five_behaviours() {
    let hooks = generate_hooks();
    assert!(hooks.starts_with(
        "pub static mut BOOTINFO: *mut seL4_BootInfo = (0 as *mut seL4_BootInfo);\nstatic mut RUN_ONCE: bool = false;\n"
    ));
    assert!(hooks.contains(
        "    if !RUN_ONCE {\n        BOOTINFO = bootinfo;\n        RUN_ONCE = true;\n        seL4_SetUserData((*bootinfo).ipcBuffer as usize as seL4_Word);\n    }\n"
    ));
    assert_eq!(count(&hooks, "RUN_ONCE = true;"), 1);
    assert!(hooks.contains("    main();\n    panic!(\"Root task should never return from main!\");\n"));
    assert!(hooks.contains("#[panic_handler]\n#[no_mangle]\nfn panic(info: &PanicInfo) -> ! {\n"));
    assert!(hooks.contains("#[lang = \"eh_personality\"]\n#[no_mangle]\npub fn eh_personality() {\n"));
    assert!(hooks.contains("#[lang = \"oom\"]\n#[no_mangle]\npub extern \"C\" fn oom() -> ! {\n"));
    assert_eq!(count(&hooks, "#[cfg(feature = \"KernelPrinting\")]"), 3);
    assert_eq!(count(&hooks, "intrinsics::abort()"), 3);
    assert!(hooks.contains("\"----- aborting from panic -----\\n\""));
    assert!(hooks.contains("\"----- aborting from out-of-memory -----\\n\""));
    assert!(hooks.ends_with("}\n\n"));
}

#[test]
fn untyped_search_takes_the_first_fit() {
    let search = generate_untyped_search();
    assert!(search.starts_with(
        "fn get_untyped(info: &seL4_BootInfo, size_bytes: usize) -> Option<seL4_CPtr> {\n    let mut idx = 0;\n    for i in info.untyped.start..info.untyped.end {\n        if (1 << info.untypedList[idx].sizeBits) >= size_bytes {\n            return Some(i);\n        }\n        idx += 1;\n    }\n    None\n}\n"
    ));
    assert!(search.ends_with(&generate_child_stack_declaration()));
}

#[test]
fn child_stack_is_a_buffer_of_4096_words() {
    assert_eq!(
        generate_child_stack_declaration(),
        "const CHILD_STACK_SIZE: usize = 4096;\nstatic mut CHILD_STACK: *const [u64; CHILD_STACK_SIZE] =\n    &[0; CHILD_STACK_SIZE];\n\n        \n"
    );
}

#[test]
fn stack_top_is_the_base_plus_the_size_of_the_buffer() {
    assert_eq!(
        generate_stack_top_step(),
        "    let stack_base = unsafe { CHILD_STACK as usize };\n    let stack_top = stack_base + mem::size_of::<[u64; CHILD_STACK_SIZE]>();\n    let mut regs: seL4_UserContext = unsafe { mem::zeroed() };\n"
    );
    for (arch, _, stack_pointer, _) in all_architectures() {
        let generator = Generator::new("task", arch, "", table());
        let main = generator.generate_main();
        let program = generator.generate();
        assert_eq!(count(&main, "stack_top"), 2);
        assert_eq!(count(&main, "let stack_top = stack_base + mem::size_of::<[u64; CHILD_STACK_SIZE]>();\n"), 1);
        assert_eq!(count(&main, &format!("    regs.{} = stack_top as seL4_Word;\n", stack_pointer)), 1);
        assert!(!program.contains("stack_base + CHILD_STACK_SIZE"));
        assert_eq!(count(&program, "static mut CHILD_STACK: *const [u64; CHILD_STACK_SIZE] ="), 1);
    }
}

#[test]
fn checked_steps_carry_their_messages() {
    assert_eq!(generate_checked_step("call(\"", "message", "\");\n"), "call(\"message\");\n");
    assert_eq!(generate_checked_step("", "", ""), "");
    let before = generate_main_before_registers();
    assert!(before.starts_with("fn main() {\n    let bootinfo = unsafe { &*BOOTINFO };\n"));
    assert_eq!(
        count(
            &before,
            "    let untyped = get_untyped(bootinfo, 1 << seL4_TCBBits).expect(\"Failed to find untyped memory\");\n"
        ),
        1
    );
    assert_eq!(
        count(&before, "    assert!(retype_err == 0, \"Failed to retype untyped memory\");\n"),
        1
    );
    assert_eq!(count(&before, "    assert!(tcb_err == 0, \"Failed to configure TCB\");\n"), 1);
    assert!(!before.contains("unwrap()"));
    assert!(before.ends_with(&generate_stack_top_step()));
    for (arch, _, _, _) in all_architectures() {
        let generator = Generator::new("task", arch, "", table());
        let mut expected = generate_main_before_registers();
        expected.push_str(&generator.generate_register_setup());
        expected.push_str(&generate_main_after_registers());
        assert_eq!(generator.generate_main(), expected);
    }
}

#[test]
fn start_and_idle_close_the_boot_sequence() {
    assert_eq!(
        generate_main_after_registers(),
        "\n    let _: u32 =\n        unsafe { seL4_TCB_WriteRegisters(tcb_cap, 0, 0, 2, &mut regs) };\n    let _: u32 = unsafe {\n        seL4_TCB_SetPriority(tcb_cap, seL4_CapInitThreadTCB.into(), 255)\n    };\n    let _: u32 = unsafe { seL4_TCB_Resume(tcb_cap) };\n    loop {\n        unsafe {\n            seL4_Yield();\n        }\n    }\n}\n        \n"
    );
}

#[test]
fn boot_sequence_keeps_its_steps_in_order() {
    let main = Generator::new("demo_task", Arch::Aarch64, "", table()).generate_main();
    let steps = [
        "fn main() {\n",
        "get_untyped(bootinfo, 1 << seL4_TCBBits).expect(\"Failed to find untyped memory\");",
        "seL4_Untyped_Retype(",
        "assert!(retype_err == 0, \"Failed to retype untyped memory\");",
        "seL4_TCB_Configure(",
        "assert!(tcb_err == 0, \"Failed to configure TCB\");",
        "let stack_top = stack_base + mem::size_of::<[u64; CHILD_STACK_SIZE]>();",
        "regs.pc = demo_task::fel4_test::run",
        "regs.pc = demo_task::run",
        "regs.sp = stack_top",
        "unsafe { seL4_TCB_WriteRegisters(tcb_cap, 0, 0, 2, &mut regs) };",
        "seL4_TCB_SetPriority(tcb_cap, seL4_CapInitThreadTCB.into(), 255)",
        "unsafe { seL4_TCB_Resume(tcb_cap) };",
        "    loop {\n        unsafe {\n            seL4_Yield();\n        }\n    }\n}\n",
    ];
    let mut from = 0;
    for step in steps {
        let at = main[from..].find(step).unwrap();
        from += at + step.len();
    }
    assert_eq!(count(&main, "assert!("), 2);
}

#[test]
fn trampoline_is_embedded_verbatim() {
    let odd = "\"##\n\t# not a delimiter \u{e9}\u{4e16}\n";
    let table = ArchTable::new(odd, "", "c", "d");
    let generator = Generator::new("task", Arch::X86, "", table);
    assert_eq!(generator.generate_trampoline(), format!("global_asm!(r###\"{}\"###);\n\n", odd));
    let table = ArchTable::new(odd, "", "c", "d");
    let empty = Generator::new("task", Arch::X86_64, "", table);
    assert_eq!(empty.generate_trampoline(), "global_asm!(r###\"\"###);\n\n");
}

#[test]
fn module_name_is_not_checked() {
    let generator = Generator::new("not an identifier", Arch::X86, "", table());
    let program = generator.generate();
    assert!(program.contains("extern crate not an identifier;\n"));
    assert!(program.contains("regs.rip = not an identifier::run as seL4_Word;"));
}

fn name_of(arch: Arch) -> &'static str {
    match arch {
        Arch::X86 => "x86",
        Arch::X86_64 => "x86_64",
        Arch::Armv7 => "armv7",
        Arch::Aarch64 => "aarch64",
    }
}

#[test]
fn architectures_are_exactly_four() {
    let names: Vec<&str> = all_architectures().iter().map(|entry| name_of(entry.0)).collect();
    assert_eq!(names, vec!["x86", "x86_64", "armv7", "aarch64"]);
    for (arch, _, _, start_up) in all_architectures() {
        let program = Generator::new("task", arch, "", table()).generate();
        assert!(start_up.starts_with(name_of(arch)));
        assert!(program.ends_with(&format!("global_asm!(r###\"{}\"###);\n\n", start_up)));
    }
}
