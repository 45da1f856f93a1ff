//! The CFI stack-walking capability: the narrow object handed to the symbol
//! provider while it evaluates Call Frame Information for one callee frame.
//! The provider reads the callee's registers and saved stack memory through
//! it and writes the caller's registers into it.

use vstd::prelude::*;
use crate::context::{
    spec_is_32bit, spec_pc_index, spec_reg_index, spec_sp_index, pc_index, sp_index, word_size,
    CpuContext,
};
use crate::memory::StackMemory;

verus! {

/// Capability object for one CFI evaluation. `caller_ctx` starts with no
/// valid registers; evaluation succeeds only if the provider establishes
/// both the caller's stack pointer and its program counter.
pub struct CfiStackWalker<'a> {
    /// The address whose CFI is being evaluated.
    pub instruction: u64,
    /// Stack-argument bytes of the callee of the callee, which some CFI
    /// expressions refer to.
    pub grand_callee_parameter_size: u32,
    /// The register file of the frame being unwound from.
    pub callee_ctx: &'a CpuContext,
    /// The caller's register file under construction.
    pub caller_ctx: CpuContext,
    /// The thread's saved stack memory.
    pub stack_memory: &'a StackMemory,
}

impl<'a> CfiStackWalker<'a> {
    pub open spec fn wf(self) -> bool {
        self.callee_ctx.wf() && self.caller_ctx.wf() && self.caller_ctx.arch
            == self.callee_ctx.arch
    }

    /// All fields but the caller's register file are unchanged.
    pub open spec fn same_but_caller(self, other: CfiStackWalker<'a>) -> bool {
        self.instruction == other.instruction && self.grand_callee_parameter_size
            == other.grand_callee_parameter_size && self.callee_ctx == other.callee_ctx
            && self.stack_memory == other.stack_memory
    }

    pub fn get_instruction(&self) -> (r: u64)
        ensures
            r == self.instruction,
    {
        self.instruction
    }

    pub fn get_grand_callee_parameter_size(&self) -> (r: u32)
        ensures
            r == self.grand_callee_parameter_size,
    {
        self.grand_callee_parameter_size
    }

    /// Read a register-sized word from saved stack memory.
    pub fn get_register_at_address(&self, address: u64) -> (r: Option<u64>)
        ensures
            ({
                let ws = crate::context::spec_word_size(self.callee_ctx.arch);
                match r {
                    Some(v) => self.stack_memory.spec_in_range(address, ws) && v
                        == self.stack_memory.spec_read_word(address, ws),
                    None => !self.stack_memory.spec_in_range(address, ws),
                }
            }),
    {
        let ws = word_size(self.callee_ctx.arch);
        self.stack_memory.read_word(address, ws)
    }

    /// Read a register from the callee's context, respecting its validity.
    pub fn get_callee_register(&self, name: &str) -> (r: Option<u64>)
        requires
            self.callee_ctx.wf(),
        ensures
            r == self.callee_ctx.spec_get_named(name@),
    {
        self.callee_ctx.get_register(name)
    }

    /// Write a caller register; success inserts its canonical slot into the
    /// caller's validity set.
    pub fn set_caller_register(&mut self, name: &str, val: u64) -> (r: Option<()>)
        requires
            old(self).caller_ctx.wf(),
        ensures
            final(self).same_but_caller(*old(self)),
            final(self).caller_ctx.wf(),
            final(self).caller_ctx.arch == old(self).caller_ctx.arch,
            match spec_reg_index(old(self).caller_ctx.arch, name@) {
                Option::None => r is None && final(self).caller_ctx.equal_to(old(self).caller_ctx),
                Option::Some(i) => if spec_is_32bit(old(self).caller_ctx.arch) && val > u32::MAX {
                    r is None && final(self).caller_ctx.equal_to(old(self).caller_ctx)
                } else {
                    r is Some && final(self).caller_ctx.regs@ == old(self).caller_ctx.regs@.update(
                        i,
                        val,
                    ) && final(self).caller_ctx.valid@ == old(self).caller_ctx.valid@.update(
                        i,
                        true,
                    )
                },
            },
    {
        self.caller_ctx.set_register(name, val)
    }

    /// Drop a register from the caller's validity set; its raw value stays.
    pub fn clear_caller_register(&mut self, name: &str)
        requires
            old(self).caller_ctx.wf(),
        ensures
            final(self).same_but_caller(*old(self)),
            final(self).caller_ctx.wf(),
            final(self).caller_ctx.arch == old(self).caller_ctx.arch,
            final(self).caller_ctx.regs@ == old(self).caller_ctx.regs@,
            match spec_reg_index(old(self).caller_ctx.arch, name@) {
                Option::None => final(self).caller_ctx.valid@ == old(self).caller_ctx.valid@,
                Option::Some(i) => final(self).caller_ctx.valid@ == old(
                    self,
                ).caller_ctx.valid@.update(i, false),
            },
    {
        let idx = self.caller_ctx.memoize_register(name);
        match idx {
            Option::None => (),
            Option::Some(i) => self.caller_ctx.clear_valid_by_index(i),
        }
    }

    /// Set the caller's stack pointer (the canonical frame address).
    pub fn set_cfa(&mut self, val: u64) -> (r: Option<()>)
        requires
            old(self).caller_ctx.wf(),
        ensures
            final(self).same_but_caller(*old(self)),
            final(self).caller_ctx.wf(),
            final(self).caller_ctx.arch == old(self).caller_ctx.arch,
            if spec_is_32bit(old(self).caller_ctx.arch) && val > u32::MAX {
                r is None && final(self).caller_ctx.equal_to(old(self).caller_ctx)
            } else {
                r is Some && final(self).caller_ctx.regs@ == old(self).caller_ctx.regs@.update(
                    spec_sp_index(old(self).caller_ctx.arch),
                    val,
                ) && final(self).caller_ctx.valid@ == old(self).caller_ctx.valid@.update(
                    spec_sp_index(old(self).caller_ctx.arch),
                    true,
                )
            },
    {
        let i = sp_index(self.caller_ctx.arch);
        let w = word_size(self.caller_ctx.arch);
        if w == 4 && val > u32::MAX as u64 {
            None
        } else {
            self.caller_ctx.set_register_by_index(i, val);
            Some(())
        }
    }

    /// Set the caller's program counter (the recovered return address).
    pub fn set_ra(&mut self, val: u64) -> (r: Option<()>)
        requires
            old(self).caller_ctx.wf(),
        ensures
            final(self).same_but_caller(*old(self)),
            final(self).caller_ctx.wf(),
            final(self).caller_ctx.arch == old(self).caller_ctx.arch,
            if spec_is_32bit(old(self).caller_ctx.arch) && val > u32::MAX {
                r is None && final(self).caller_ctx.equal_to(old(self).caller_ctx)
            } else {
                r is Some && final(self).caller_ctx.regs@ == old(self).caller_ctx.regs@.update(
                    spec_pc_index(old(self).caller_ctx.arch),
                    val,
                ) && final(self).caller_ctx.valid@ == old(self).caller_ctx.valid@.update(
                    spec_pc_index(old(self).caller_ctx.arch),
                    true,
                )
            },
    {
        let i = pc_index(self.caller_ctx.arch);
        let w = word_size(self.caller_ctx.arch);
        if w == 4 && val > u32::MAX as u64 {
            None
        } else {
            self.caller_ctx.set_register_by_index(i, val);
            Some(())
        }
    }
}

} // verus!
