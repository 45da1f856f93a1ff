//! CPU context model: a register file per supported instruction set, with
//! per-register validity tracking and canonical register names.

use vstd::prelude::*;
use crate::text::str_eq;

verus! {

/// The supported instruction set architectures. The set is closed and known
/// at build time; the legacy arm64 layout unwinds exactly as the current one.
#[derive(Clone, Copy, Debug, PartialEq, Eq, Structural)]
pub enum CpuArch {
    X86,
    Amd64,
    Arm,
    Arm64,
    Arm64Old,
}

/// How many named registers the architecture's context holds.
pub open spec fn spec_num_regs(arch: CpuArch) -> nat {
    match arch {
        CpuArch::X86 => 9,
        CpuArch::Amd64 => 17,
        CpuArch::Arm => 16,
        CpuArch::Arm64 => 33,
        CpuArch::Arm64Old => 33,
    }
}

pub fn num_regs(arch: CpuArch) -> (n: usize)
    ensures
        n == spec_num_regs(arch),
{
    match arch {
        CpuArch::X86 => 9,
        CpuArch::Amd64 => 17,
        CpuArch::Arm => 16,
        CpuArch::Arm64 => 33,
        CpuArch::Arm64Old => 33,
    }
}

/// Slot of the stack pointer in the register file.
pub open spec fn spec_sp_index(arch: CpuArch) -> int {
    match arch {
        CpuArch::X86 => 7,
        CpuArch::Amd64 => 7,
        CpuArch::Arm => 13,
        CpuArch::Arm64 => 31,
        CpuArch::Arm64Old => 31,
    }
}

pub fn sp_index(arch: CpuArch) -> (n: usize)
    ensures
        n == spec_sp_index(arch),
        n < spec_num_regs(arch),
{
    match arch {
        CpuArch::X86 => 7,
        CpuArch::Amd64 => 7,
        CpuArch::Arm => 13,
        CpuArch::Arm64 => 31,
        CpuArch::Arm64Old => 31,
    }
}

/// Slot of the program counter in the register file.
pub open spec fn spec_pc_index(arch: CpuArch) -> int {
    match arch {
        CpuArch::X86 => 8,
        CpuArch::Amd64 => 16,
        CpuArch::Arm => 15,
        CpuArch::Arm64 => 32,
        CpuArch::Arm64Old => 32,
    }
}

pub fn pc_index(arch: CpuArch) -> (n: usize)
    ensures
        n == spec_pc_index(arch),
        n < spec_num_regs(arch),
{
    match arch {
        CpuArch::X86 => 8,
        CpuArch::Amd64 => 16,
        CpuArch::Arm => 15,
        CpuArch::Arm64 => 32,
        CpuArch::Arm64Old => 32,
    }
}

/// Slot of the frame pointer in the register file (r11 on arm).
pub open spec fn spec_fp_index(arch: CpuArch) -> int {
    match arch {
        CpuArch::X86 => 6,
        CpuArch::Amd64 => 6,
        CpuArch::Arm => 11,
        CpuArch::Arm64 => 29,
        CpuArch::Arm64Old => 29,
    }
}

pub fn fp_index(arch: CpuArch) -> (n: usize)
    ensures
        n == spec_fp_index(arch),
        n < spec_num_regs(arch),
{
    match arch {
        CpuArch::X86 => 6,
        CpuArch::Amd64 => 6,
        CpuArch::Arm => 11,
        CpuArch::Arm64 => 29,
        CpuArch::Arm64Old => 29,
    }
}

/// Size in bytes of a register-sized word on the architecture.
pub open spec fn spec_word_size(arch: CpuArch) -> nat {
    match arch {
        CpuArch::X86 => 4,
        CpuArch::Arm => 4,
        CpuArch::Amd64 => 8,
        CpuArch::Arm64 => 8,
        CpuArch::Arm64Old => 8,
    }
}

pub fn word_size(arch: CpuArch) -> (n: usize)
    ensures
        n == spec_word_size(arch),
        n == 4 || n == 8,
{
    match arch {
        CpuArch::X86 => 4,
        CpuArch::Arm => 4,
        CpuArch::Amd64 => 8,
        CpuArch::Arm64 => 8,
        CpuArch::Arm64Old => 8,
    }
}

pub open spec fn spec_is_32bit(arch: CpuArch) -> bool {
    spec_word_size(arch) == 4
}

/// The canonical register slot for a register name, or `None` for a name the
/// architecture does not define.
pub open spec fn spec_reg_index(arch: CpuArch, name: Seq<char>) -> Option<int> {
    match arch {
        CpuArch::X86 => if name == "eax"@ {
            Some(0int)
        } else if name == "ebx"@ {
            Some(1int)
        } else if name == "ecx"@ {
            Some(2int)
        } else if name == "edx"@ {
            Some(3int)
        } else if name == "esi"@ {
            Some(4int)
        } else if name == "edi"@ {
            Some(5int)
        } else if name == "ebp"@ {
            Some(6int)
        } else if name == "esp"@ {
            Some(7int)
        } else if name == "eip"@ {
            Some(8int)
        } else {
            None
        },
        CpuArch::Amd64 => if name == "rax"@ {
            Some(0int)
        } else if name == "rbx"@ {
            Some(1int)
        } else if name == "rcx"@ {
            Some(2int)
        } else if name == "rdx"@ {
            Some(3int)
        } else if name == "rsi"@ {
            Some(4int)
        } else if name == "rdi"@ {
            Some(5int)
        } else if name == "rbp"@ {
            Some(6int)
        } else if name == "rsp"@ {
            Some(7int)
        } else if name == "r8"@ {
            Some(8int)
        } else if name == "r9"@ {
            Some(9int)
        } else if name == "r10"@ {
            Some(10int)
        } else if name == "r11"@ {
            Some(11int)
        } else if name == "r12"@ {
            Some(12int)
        } else if name == "r13"@ {
            Some(13int)
        } else if name == "r14"@ {
            Some(14int)
        } else if name == "r15"@ {
            Some(15int)
        } else if name == "rip"@ {
            Some(16int)
        } else {
            None
        },
        CpuArch::Arm => if name == "r0"@ {
            Some(0int)
        } else if name == "r1"@ {
            Some(1int)
        } else if name == "r2"@ {
            Some(2int)
        } else if name == "r3"@ {
            Some(3int)
        } else if name == "r4"@ {
            Some(4int)
        } else if name == "r5"@ {
            Some(5int)
        } else if name == "r6"@ {
            Some(6int)
        } else if name == "r7"@ {
            Some(7int)
        } else if name == "r8"@ {
            Some(8int)
        } else if name == "r9"@ {
            Some(9int)
        } else if name == "r10"@ {
            Some(10int)
        } else if name == "r11"@ {
            Some(11int)
        } else if name == "r12"@ {
            Some(12int)
        } else if name == "sp"@ {
            Some(13int)
        } else if name == "lr"@ {
            Some(14int)
        } else if name == "pc"@ {
            Some(15int)
        } else {
            None
        },
        CpuArch::Arm64 | CpuArch::Arm64Old => if name == "x0"@ {
            Some(0int)
        } else if name == "x1"@ {
            Some(1int)
        } else if name == "x2"@ {
            Some(2int)
        } else if name == "x3"@ {
            Some(3int)
        } else if name == "x4"@ {
            Some(4int)
        } else if name == "x5"@ {
            Some(5int)
        } else if name == "x6"@ {
            Some(6int)
        } else if name == "x7"@ {
            Some(7int)
        } else if name == "x8"@ {
            Some(8int)
        } else if name == "x9"@ {
            Some(9int)
        } else if name == "x10"@ {
            Some(10int)
        } else if name == "x11"@ {
            Some(11int)
        } else if name == "x12"@ {
            Some(12int)
        } else if name == "x13"@ {
            Some(13int)
        } else if name == "x14"@ {
            Some(14int)
        } else if name == "x15"@ {
            Some(15int)
        } else if name == "x16"@ {
            Some(16int)
        } else if name == "x17"@ {
            Some(17int)
        } else if name == "x18"@ {
            Some(18int)
        } else if name == "x19"@ {
            Some(19int)
        } else if name == "x20"@ {
            Some(20int)
        } else if name == "x21"@ {
            Some(21int)
        } else if name == "x22"@ {
            Some(22int)
        } else if name == "x23"@ {
            Some(23int)
        } else if name == "x24"@ {
            Some(24int)
        } else if name == "x25"@ {
            Some(25int)
        } else if name == "x26"@ {
            Some(26int)
        } else if name == "x27"@ {
            Some(27int)
        } else if name == "x28"@ {
            Some(28int)
        } else if name == "fp"@ {
            Some(29int)
        } else if name == "lr"@ {
            Some(30int)
        } else if name == "sp"@ {
            Some(31int)
        } else if name == "pc"@ {
            Some(32int)
        } else {
            None
        },
    }
}

/// Validate a register name against the architecture's known set and return
/// its canonical slot.
pub fn reg_index(arch: CpuArch, name: &str) -> (r: Option<usize>)
    ensures
        match r {
            Some(i) => spec_reg_index(arch, name@) == Some(i as int) && i < spec_num_regs(arch),
            None => spec_reg_index(arch, name@) is None,
        },
{
    match arch {
        CpuArch::X86 => if str_eq(name, "eax") {
            Some(0)
        } else if str_eq(name, "ebx") {
            Some(1)
        } else if str_eq(name, "ecx") {
            Some(2)
        } else if str_eq(name, "edx") {
            Some(3)
        } else if str_eq(name, "esi") {
            Some(4)
        } else if str_eq(name, "edi") {
            Some(5)
        } else if str_eq(name, "ebp") {
            Some(6)
        } else if str_eq(name, "esp") {
            Some(7)
        } else if str_eq(name, "eip") {
            Some(8)
        } else {
            None
        },
        CpuArch::Amd64 => if str_eq(name, "rax") {
            Some(0)
        } else if str_eq(name, "rbx") {
            Some(1)
        } else if str_eq(name, "rcx") {
            Some(2)
        } else if str_eq(name, "rdx") {
            Some(3)
        } else if str_eq(name, "rsi") {
            Some(4)
        } else if str_eq(name, "rdi") {
            Some(5)
        } else if str_eq(name, "rbp") {
            Some(6)
        } else if str_eq(name, "rsp") {
            Some(7)
        } else if str_eq(name, "r8") {
            Some(8)
        } else if str_eq(name, "r9") {
            Some(9)
        } else if str_eq(name, "r10") {
            Some(10)
        } else if str_eq(name, "r11") {
            Some(11)
        } else if str_eq(name, "r12") {
            Some(12)
        } else if str_eq(name, "r13") {
            Some(13)
        } else if str_eq(name, "r14") {
            Some(14)
        } else if str_eq(name, "r15") {
            Some(15)
        } else if str_eq(name, "rip") {
            Some(16)
        } else {
            None
        },
        CpuArch::Arm => if str_eq(name, "r0") {
            Some(0)
        } else if str_eq(name, "r1") {
            Some(1)
        } else if str_eq(name, "r2") {
            Some(2)
        } else if str_eq(name, "r3") {
            Some(3)
        } else if str_eq(name, "r4") {
            Some(4)
        } else if str_eq(name, "r5") {
            Some(5)
        } else if str_eq(name, "r6") {
            Some(6)
        } else if str_eq(name, "r7") {
            Some(7)
        } else if str_eq(name, "r8") {
            Some(8)
        } else if str_eq(name, "r9") {
            Some(9)
        } else if str_eq(name, "r10") {
            Some(10)
        } else if str_eq(name, "r11") {
            Some(11)
        } else if str_eq(name, "r12") {
            Some(12)
        } else if str_eq(name, "sp") {
            Some(13)
        } else if str_eq(name, "lr") {
            Some(14)
        } else if str_eq(name, "pc") {
            Some(15)
        } else {
            None
        },
        CpuArch::Arm64 | CpuArch::Arm64Old => if str_eq(name, "x0") {
            Some(0)
        } else if str_eq(name, "x1") {
            Some(1)
        } else if str_eq(name, "x2") {
            Some(2)
        } else if str_eq(name, "x3") {
            Some(3)
        } else if str_eq(name, "x4") {
            Some(4)
        } else if str_eq(name, "x5") {
            Some(5)
        } else if str_eq(name, "x6") {
            Some(6)
        } else if str_eq(name, "x7") {
            Some(7)
        } else if str_eq(name, "x8") {
            Some(8)
        } else if str_eq(name, "x9") {
            Some(9)
        } else if str_eq(name, "x10") {
            Some(10)
        } else if str_eq(name, "x11") {
            Some(11)
        } else if str_eq(name, "x12") {
            Some(12)
        } else if str_eq(name, "x13") {
            Some(13)
        } else if str_eq(name, "x14") {
            Some(14)
        } else if str_eq(name, "x15") {
            Some(15)
        } else if str_eq(name, "x16") {
            Some(16)
        } else if str_eq(name, "x17") {
            Some(17)
        } else if str_eq(name, "x18") {
            Some(18)
        } else if str_eq(name, "x19") {
            Some(19)
        } else if str_eq(name, "x20") {
            Some(20)
        } else if str_eq(name, "x21") {
            Some(21)
        } else if str_eq(name, "x22") {
            Some(22)
        } else if str_eq(name, "x23") {
            Some(23)
        } else if str_eq(name, "x24") {
            Some(24)
        } else if str_eq(name, "x25") {
            Some(25)
        } else if str_eq(name, "x26") {
            Some(26)
        } else if str_eq(name, "x27") {
            Some(27)
        } else if str_eq(name, "x28") {
            Some(28)
        } else if str_eq(name, "fp") {
            Some(29)
        } else if str_eq(name, "lr") {
            Some(30)
        } else if str_eq(name, "sp") {
            Some(31)
        } else if str_eq(name, "pc") {
            Some(32)
        } else {
            None
        },
    }
}

/// A register file with validity tracking. The slot at `spec_sp_index` holds
/// the stack pointer, the one at `spec_pc_index` the program counter; a
/// register whose `valid` flag is false must not be consulted.
pub struct CpuContext {
    pub arch: CpuArch,
    pub regs: Vec<u64>,
    pub valid: Vec<bool>,
}

impl CpuContext {
    /// Well-formedness: one register value and one validity flag per slot.
    pub open spec fn wf(self) -> bool {
        self.regs@.len() == spec_num_regs(self.arch) && self.valid@.len() == spec_num_regs(
            self.arch,
        )
    }

    /// The raw value of a slot, regardless of validity.
    pub open spec fn spec_reg_raw(self, i: int) -> u64 {
        self.regs@[i]
    }

    /// The value of a slot when its validity flag is set.
    pub open spec fn spec_get(self, i: int) -> Option<u64> {
        if self.valid@[i] {
            Some(self.regs@[i])
        } else {
            None
        }
    }

    /// The raw stack pointer.
    pub open spec fn spec_sp_raw(self) -> u64 {
        self.regs@[spec_sp_index(self.arch)]
    }

    /// The raw program counter.
    pub open spec fn spec_pc_raw(self) -> u64 {
        self.regs@[spec_pc_index(self.arch)]
    }

    pub open spec fn spec_get_named(self, name: Seq<char>) -> Option<u64> {
        match spec_reg_index(self.arch, name) {
            Option::None => None,
            Option::Some(i) => self.spec_get(i),
        }
    }

    /// Two contexts agree on architecture, register values and validity.
    pub open spec fn equal_to(self, other: CpuContext) -> bool {
        self.arch == other.arch && self.regs@ == other.regs@ && self.valid@ == other.valid@
    }

    /// A context whose registers are all zero and all untrusted.
    pub fn new_invalid(arch: CpuArch) -> (r: CpuContext)
        ensures
            r.wf(),
            r.arch == arch,
            forall|i: int| 0 <= i < spec_num_regs(arch) ==> r.regs@[i] == 0 && !r.valid@[i],
    {
        let n = num_regs(arch);
        let mut regs: Vec<u64> = Vec::new();
        let mut valid: Vec<bool> = Vec::new();
        let mut i: usize = 0;
        while i < n
            invariant
                i <= n,
                regs@.len() == i,
                valid@.len() == i,
                forall|j: int| 0 <= j < i ==> regs@[j] == 0 && !valid@[j],
            decreases n - i,
        {
            regs.push(0);
            valid.push(false);
            i = i + 1;
        }
        CpuContext { arch, regs, valid }
    }

    /// A context seeded with the given register values, all of them trusted;
    /// the shape a thread's own context or an exception context arrives in.
    pub fn from_regs(arch: CpuArch, regs: Vec<u64>) -> (r: CpuContext)
        requires
            regs@.len() == spec_num_regs(arch),
        ensures
            r.wf(),
            r.arch == arch,
            r.regs@ == regs@,
            forall|i: int| 0 <= i < spec_num_regs(arch) ==> r.valid@[i],
    {
        let n = num_regs(arch);
        let mut valid: Vec<bool> = Vec::new();
        let mut i: usize = 0;
        while i < n
            invariant
                i <= n,
                valid@.len() == i,
                forall|j: int| 0 <= j < i ==> valid@[j],
            decreases n - i,
        {
            valid.push(true);
            i = i + 1;
        }
        CpuContext { arch, regs, valid }
    }

    /// An owned copy of this context.
    pub fn duplicate(&self) -> (r: CpuContext)
        ensures
            r.equal_to(*self),
            r.wf() == self.wf(),
    {
        CpuContext {
            arch: self.arch,
            regs: copy_u64_vec(&self.regs),
            valid: copy_bool_vec(&self.valid),
        }
    }

    /// Executable well-formedness check.
    pub fn is_wf(&self) -> (r: bool)
        ensures
            r == self.wf(),
    {
        let n = num_regs(self.arch);
        self.regs.len() == n && self.valid.len() == n
    }

    /// The starting point for a caller context under reconstruction: the
    /// callee's raw register values, none of them trusted yet.
    pub fn caller_seed(&self) -> (r: CpuContext)
        requires
            self.wf(),
        ensures
            r.wf(),
            r.arch == self.arch,
            r.regs@ == self.regs@,
            forall|i: int| 0 <= i < spec_num_regs(self.arch) ==> !r.valid@[i],
    {
        let n = num_regs(self.arch);
        let mut valid: Vec<bool> = Vec::new();
        let mut i: usize = 0;
        while i < n
            invariant
                i <= n,
                valid@.len() == i,
                forall|j: int| 0 <= j < i ==> !valid@[j],
            decreases n - i,
        {
            valid.push(false);
            i = i + 1;
        }
        CpuContext { arch: self.arch, regs: copy_u64_vec(&self.regs), valid }
    }

    /// The raw stack pointer of a well-formed context.
    pub fn sp_raw(&self) -> (r: u64)
        requires
            self.wf(),
        ensures
            r == self.spec_sp_raw(),
    {
        let i = sp_index(self.arch);
        self.regs[i]
    }

    /// The raw program counter of a well-formed context.
    pub fn pc_raw(&self) -> (r: u64)
        requires
            self.wf(),
        ensures
            r == self.spec_pc_raw(),
    {
        let i = pc_index(self.arch);
        self.regs[i]
    }

    /// Read a slot, respecting validity.
    pub fn get_register_by_index(&self, i: usize) -> (r: Option<u64>)
        requires
            self.wf(),
            i < spec_num_regs(self.arch),
        ensures
            r == self.spec_get(i as int),
    {
        if self.valid[i] {
            Some(self.regs[i])
        } else {
            None
        }
    }

    /// Read a register by name, respecting validity; an unknown name reads as
    /// `None` rather than failing.
    pub fn get_register(&self, name: &str) -> (r: Option<u64>)
        requires
            self.wf(),
        ensures
            r == self.spec_get_named(name@),
    {
        match reg_index(self.arch, name) {
            Option::None => None,
            Option::Some(i) => self.get_register_by_index(i),
        }
    }

    /// Write a slot and mark it trusted.
    pub fn set_register_by_index(&mut self, i: usize, val: u64)
        requires
            old(self).wf(),
            i < spec_num_regs(old(self).arch),
        ensures
            final(self).wf(),
            final(self).arch == old(self).arch,
            final(self).regs@ == old(self).regs@.update(i as int, val),
            final(self).valid@ == old(self).valid@.update(i as int, true),
    {
        self.regs.set(i, val);
        self.valid.set(i, true);
    }

    /// Mark a slot untrusted, leaving its raw value in place.
    pub fn clear_valid_by_index(&mut self, i: usize)
        requires
            old(self).wf(),
            i < spec_num_regs(old(self).arch),
        ensures
            final(self).wf(),
            final(self).arch == old(self).arch,
            final(self).regs@ == old(self).regs@,
            final(self).valid@ == old(self).valid@.update(i as int, false),
    {
        self.valid.set(i, false);
    }

    /// Write a register by name and mark it trusted. An unknown name, or a
    /// value that does not fit a 32-bit architecture's registers, changes
    /// nothing and reports `None`.
    pub fn set_register(&mut self, name: &str, val: u64) -> (r: Option<()>)
        requires
            old(self).wf(),
        ensures
            final(self).wf(),
            final(self).arch == old(self).arch,
            match spec_reg_index(old(self).arch, name@) {
                Option::None => r is None && final(self).equal_to(*old(self)),
                Option::Some(i) => if spec_is_32bit(old(self).arch) && val > u32::MAX {
                    r is None && final(self).equal_to(*old(self))
                } else {
                    r is Some && final(self).regs@ == old(self).regs@.update(i, val)
                        && final(self).valid@ == old(self).valid@.update(i, true)
                },
            },
    {
        match reg_index(self.arch, name) {
            Option::None => None,
            Option::Some(i) => {
                let w = word_size(self.arch);
                if w == 4 && val > u32::MAX as u64 {
                    None
                } else {
                    self.set_register_by_index(i, val);
                    Some(())
                }
            },
        }
    }

    /// Validate a register name against this architecture's set and return
    /// its canonical slot, for use as a validity key.
    pub fn memoize_register(&self, name: &str) -> (r: Option<usize>)
        ensures
            match r {
                Some(i) => spec_reg_index(self.arch, name@) == Some(i as int) && i < spec_num_regs(
                    self.arch,
                ),
                None => spec_reg_index(self.arch, name@) is None,
            },
    {
        reg_index(self.arch, name)
    }

    /// The canonical spelling of the stack pointer register.
    pub fn stack_pointer_register_name(&self) -> (r: &'static str)
        ensures
            r@ == spec_sp_name(self.arch),
    {
        match self.arch {
            CpuArch::X86 => "esp",
            CpuArch::Amd64 => "rsp",
            CpuArch::Arm => "sp",
            CpuArch::Arm64 => "sp",
            CpuArch::Arm64Old => "sp",
        }
    }

    /// The canonical spelling of the program counter register.
    pub fn instruction_pointer_register_name(&self) -> (r: &'static str)
        ensures
            r@ == spec_pc_name(self.arch),
    {
        match self.arch {
            CpuArch::X86 => "eip",
            CpuArch::Amd64 => "rip",
            CpuArch::Arm => "pc",
            CpuArch::Arm64 => "pc",
            CpuArch::Arm64Old => "pc",
        }
    }
}

/// An element-wise copy of a register-value vector.
pub fn copy_u64_vec(v: &Vec<u64>) -> (r: Vec<u64>)
    ensures
        r@ == v@,
{
    let n = v.len();
    let mut r: Vec<u64> = Vec::new();
    let mut i: usize = 0;
    while i < n
        invariant
            i <= n,
            n == v@.len(),
            r@ == v@.subrange(0, i as int),
        decreases n - i,
    {
        r.push(v[i]);
        proof {
            assert(r@ =~= v@.subrange(0, i + 1));
        }
        i = i + 1;
    }
    proof {
        assert(v@.subrange(0, n as int) =~= v@);
    }
    r
}

/// An element-wise copy of a validity vector.
pub fn copy_bool_vec(v: &Vec<bool>) -> (r: Vec<bool>)
    ensures
        r@ == v@,
{
    let n = v.len();
    let mut r: Vec<bool> = Vec::new();
    let mut i: usize = 0;
    while i < n
        invariant
            i <= n,
            n == v@.len(),
            r@ == v@.subrange(0, i as int),
        decreases n - i,
    {
        r.push(v[i]);
        proof {
            assert(r@ =~= v@.subrange(0, i + 1));
        }
        i = i + 1;
    }
    proof {
        assert(v@.subrange(0, n as int) =~= v@);
    }
    r
}

/// The canonical stack pointer name per architecture.
pub open spec fn spec_sp_name(arch: CpuArch) -> Seq<char> {
    match arch {
        CpuArch::X86 => "esp"@,
        CpuArch::Amd64 => "rsp"@,
        CpuArch::Arm => "sp"@,
        CpuArch::Arm64 => "sp"@,
        CpuArch::Arm64Old => "sp"@,
    }
}

/// The canonical program counter name per architecture.
pub open spec fn spec_pc_name(arch: CpuArch) -> Seq<char> {
    match arch {
        CpuArch::X86 => "eip"@,
        CpuArch::Amd64 => "rip"@,
        CpuArch::Arm => "pc"@,
        CpuArch::Arm64 => "pc"@,
        CpuArch::Arm64Old => "pc"@,
    }
}

} // verus!
