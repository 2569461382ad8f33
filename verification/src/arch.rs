use vstd::prelude::*;

verus! {

/// The CPU families for which a root task can be generated.
#[allow(non_camel_case_types)]
#[derive(Clone, Copy, Debug, PartialEq, Eq, Structural)]
pub enum Arch {
    X86,
    X86_64,
    Armv7,
    Aarch64,
}

/// Name of the field of the register set that holds the stack pointer.
pub open spec fn stack_pointer_name(arch: Arch) -> Seq<char> {
    match arch {
        Arch::X86 => "rsp"@,
        Arch::X86_64 => "rsp"@,
        Arch::Armv7 => "sp"@,
        Arch::Aarch64 => "sp"@,
    }
}

/// Name of the field of the register set that holds the program counter.
pub open spec fn program_counter_name(arch: Arch) -> Seq<char> {
    match arch {
        Arch::X86 => "rip"@,
        Arch::X86_64 => "rip"@,
        Arch::Armv7 => "pc"@,
        Arch::Aarch64 => "pc"@,
    }
}

/// The start-up code of the four architectures, as plain text.
pub struct Trampolines {
    pub x86: Seq<char>,
    pub x86_64: Seq<char>,
    pub armv7: Seq<char>,
    pub aarch64: Seq<char>,
}

impl Trampolines {
    /// The start-up code of one architecture.
    pub open spec fn of(self, arch: Arch) -> Seq<char> {
        match arch {
            Arch::X86 => self.x86,
            Arch::X86_64 => self.x86_64,
            Arch::Armv7 => self.armv7,
            Arch::Aarch64 => self.aarch64,
        }
    }
}

/// What the generator needs to know of one architecture.
pub struct ArchEntry<'a> {
    pub stack_pointer: &'static str,
    pub program_counter: &'static str,
    pub trampoline: &'a str,
}

/// The table of the supported architectures: the register names are fixed,
/// the start-up code of each architecture is supplied by the caller and is
/// never looked into.
pub struct ArchTable {
    x86: String,
    x86_64: String,
    armv7: String,
    aarch64: String,
}

impl View for ArchTable {
    type V = Trampolines;

    closed spec fn view(&self) -> Trampolines {
        Trampolines {
            x86: self.x86@,
            x86_64: self.x86_64@,
            armv7: self.armv7@,
            aarch64: self.aarch64@,
        }
    }
}

impl ArchTable {
    /// A table that holds the given start-up code, one text per architecture.
    pub fn new(x86: &str, x86_64: &str, armv7: &str, aarch64: &str) -> (table: ArchTable)
        ensures
            table@ == (Trampolines { x86: x86@, x86_64: x86_64@, armv7: armv7@, aarch64: aarch64@ }),
    {
        ArchTable {
            x86: String::from_str(x86),
            x86_64: String::from_str(x86_64),
            armv7: String::from_str(armv7),
            aarch64: String::from_str(aarch64),
        }
    }

    /// The entry of one architecture. Every architecture has one: the match
    /// below has an arm for each and no default.
    pub fn entry(&self, arch: Arch) -> (entry: ArchEntry<'_>)
        ensures
            entry.stack_pointer@ == stack_pointer_name(arch),
            entry.program_counter@ == program_counter_name(arch),
            entry.trampoline@ == self@.of(arch),
    {
        match arch {
            Arch::X86 => ArchEntry {
                stack_pointer: "rsp",
                program_counter: "rip",
                trampoline: self.x86.as_str(),
            },
            Arch::X86_64 => ArchEntry {
                stack_pointer: "rsp",
                program_counter: "rip",
                trampoline: self.x86_64.as_str(),
            },
            Arch::Armv7 => ArchEntry {
                stack_pointer: "sp",
                program_counter: "pc",
                trampoline: self.armv7.as_str(),
            },
            Arch::Aarch64 => ArchEntry {
                stack_pointer: "sp",
                program_counter: "pc",
                trampoline: self.aarch64.as_str(),
            },
        }
    }
}

} // verus!
