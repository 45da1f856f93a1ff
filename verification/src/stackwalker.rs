//! Unwind stack frames for a thread: seed a frame from the thread's context,
//! then repeatedly recover the caller's frame by CFI, frame-pointer chains,
//! or a heuristic stack scan, until no valid caller remains.

use vstd::prelude::*;
use vstd::string::StrSliceExecFns;
use crate::cfi::CfiStackWalker;
use vstd::arithmetic::mul::lemma_mul_inequality;
use crate::context::{
    fp_index, pc_index, sp_index, spec_fp_index, spec_pc_index, spec_sp_index, spec_word_size,
    word_size, CpuArch, CpuContext,
};
use crate::memory::StackMemory;
use crate::modules::{
    clone_module, spec_module_index_at, spec_module_like, Module, ModuleList,
};
use crate::process_state::{CallStack, CallStackInfo, FrameTrust, StackFrame};
use crate::symbols::{SymLookup, SymLookupV, SymbolProvider};

verus! {

/// How many stack slots a scan may examine before giving up. Bounding the
/// scan distance keeps plausible-looking false stacks short.
pub const SCAN_MAX_WORDS: u64 = 40;

/// Return addresses on arm64 may carry pointer-authentication bits in the
/// top byte; they are cleared before the address is used.
pub open spec fn spec_mask_return_address(arch: CpuArch, val: u64) -> u64 {
    match arch {
        CpuArch::Arm64 => val & 0x00ff_ffff_ffff_ffff,
        CpuArch::Arm64Old => val & 0x00ff_ffff_ffff_ffff,
        _ => val,
    }
}

pub fn mask_return_address(arch: CpuArch, val: u64) -> (r: u64)
    ensures
        r == spec_mask_return_address(arch, val),
{
    match arch {
        CpuArch::Arm64 => val & 0x00ff_ffff_ffff_ffff,
        CpuArch::Arm64Old => val & 0x00ff_ffff_ffff_ffff,
        _ => val,
    }
}

/// Whether the symbols accept `instruction` as a plausible return address:
/// the word before it must fall in a module, and if that module has symbols
/// they must name a function there. A module with no symbols at all accepts
/// every address in its range, so scanning still works without symbols.
pub open spec fn spec_instruction_seems_valid<P: SymbolProvider>(
    provider: &P,
    modules: Seq<Module>,
    instruction: u64,
) -> bool {
    &&& instruction >= 1
    &&& match spec_module_index_at(modules, (instruction - 1) as u64) {
        Option::None => false,
        Option::Some(i) => match provider.spec_lookup(
            modules[i].name@,
            modules[i].base_of_image,
            (instruction - 1) as u64,
        ) {
            SymLookupV::NoSymbols => true,
            SymLookupV::NotFound => false,
            SymLookupV::Found(info) => info.name.len() > 0,
        },
    }
}

/// The validity oracle consulted by scanning (and available to the other
/// strategies). It probes `instruction - 1`: return addresses point after
/// the call, and the call instruction lives at least one byte earlier. The
/// subtracted value never leaves the probe.
pub fn instruction_seems_valid_by_symbols<P: SymbolProvider>(
    instruction: u64,
    modules: &ModuleList,
    provider: &P,
) -> (r: bool)
    ensures
        r == spec_instruction_seems_valid(provider, modules.modules@, instruction),
{
    if instruction == 0 {
        return false;
    }
    let probe = instruction - 1;
    match modules.module_index_at(probe) {
        Option::None => false,
        Option::Some(i) => {
            match provider.fill_symbol(&modules.modules[i], probe) {
                SymLookup::NoSymbols => true,
                SymLookup::NotFound => false,
                SymLookup::Found(info) => info.function_name.as_str().unicode_len() > 0,
            }
        },
    }
}

/// What symbolization did to a frame: the identifying fields are untouched;
/// the module covering the instruction was attached, and when the provider
/// found a function record its fields were copied in.
pub open spec fn spec_frame_symbolized<P: SymbolProvider>(
    provider: &P,
    modules: Seq<Module>,
    pre: StackFrame,
    post: StackFrame,
) -> bool {
    &&& post.instruction == pre.instruction
    &&& post.trust == pre.trust
    &&& post.context == pre.context
    &&& post.unloaded_modules == pre.unloaded_modules
    &&& match spec_module_index_at(modules, pre.instruction) {
        Option::None => post.module == pre.module && spec_same_symbol_fields(pre, post),
        Option::Some(i) => {
            &&& (post.module matches Some(m) && spec_module_like(m, modules[i]))
            &&& match provider.spec_lookup(
                modules[i].name@,
                modules[i].base_of_image,
                pre.instruction,
            ) {
                SymLookupV::Found(info) => {
                    &&& (post.function_name matches Some(n) && n@ == info.name)
                    &&& post.function_base == Some(info.base)
                    &&& post.parameter_size == Some(info.parameter_size)
                    &&& match info.file {
                        Option::Some(f) => post.source_file_name matches Some(pf) && pf@ == f,
                        Option::None => post.source_file_name is None,
                    }
                    &&& post.source_line == info.line
                    &&& post.source_line_base == info.line_base
                },
                _ => spec_same_symbol_fields(pre, post),
            }
        },
    }
}

pub open spec fn spec_same_symbol_fields(pre: StackFrame, post: StackFrame) -> bool {
    &&& post.function_name == pre.function_name
    &&& post.function_base == pre.function_base
    &&& post.parameter_size == pre.parameter_size
    &&& post.source_file_name == pre.source_file_name
    &&& post.source_line == pre.source_line
    &&& post.source_line_base == pre.source_line_base
}

/// Attach the module covering the frame's instruction and request a
/// best-effort symbol fill; failure leaves the symbolic fields empty but
/// the module attached.
pub fn fill_source_line_info<P: SymbolProvider>(
    frame: &mut StackFrame,
    modules: &ModuleList,
    provider: &P,
)
    ensures
        spec_frame_symbolized(provider, modules.modules@, *old(frame), *final(frame)),
{
    match modules.module_index_at(frame.instruction) {
        Option::None => (),
        Option::Some(i) => {
            frame.module = Some(clone_module(&modules.modules[i]));
            match provider.fill_symbol(&modules.modules[i], frame.instruction) {
                SymLookup::Found(info) => {
                    frame.function_name = Some(info.function_name);
                    frame.function_base = Some(info.function_base);
                    frame.parameter_size = Some(info.parameter_size);
                    frame.source_file_name = info.source_file;
                    frame.source_line = info.source_line;
                    frame.source_line_base = info.source_line_base;
                },
                _ => (),
            }
        },
    }
}

/// The invariants every recovered caller frame satisfies, whatever strategy
/// produced it: a well-formed context of the same architecture; a valid,
/// non-zero program counter that is the frame's instruction; a valid stack
/// pointer strictly above the callee's (the stack grows downward, and equal
/// stack pointers would loop forever); the instruction covered by a loaded
/// module or accepted by the symbols oracle; and, for scanned frames, the
/// oracle's approval and a bounded distance from the callee's stack
/// pointer.
pub open spec fn spec_good_caller<P: SymbolProvider>(
    provider: &P,
    modules: Seq<Module>,
    callee: StackFrame,
    caller: StackFrame,
) -> bool {
    &&& caller.context.wf()
    &&& caller.context.arch == callee.context.arch
    &&& caller.instruction == caller.context.spec_pc_raw()
    &&& caller.instruction != 0
    &&& caller.context.spec_sp_raw() > callee.context.spec_sp_raw()
    &&& caller.context.valid@[spec_sp_index(caller.context.arch)]
    &&& caller.context.valid@[spec_pc_index(caller.context.arch)]
    &&& (caller.trust == FrameTrust::CallFrameInfo || caller.trust == FrameTrust::FramePointer
        || caller.trust == FrameTrust::Scan)
    &&& (caller.trust == FrameTrust::Scan ==> spec_instruction_seems_valid(
        provider,
        modules,
        caller.instruction,
    ))
    &&& (caller.trust == FrameTrust::Scan ==> caller.context.spec_sp_raw()
        - callee.context.spec_sp_raw() <= SCAN_MAX_WORDS * spec_word_size(callee.context.arch))
    &&& (spec_module_index_at(modules, caller.instruction) is Some
        || spec_instruction_seems_valid(provider, modules, caller.instruction))
}

/// The driver contract of one CFI evaluation, over the caller context the
/// evaluation left behind: the frame is accepted exactly when the context
/// is well-formed and of the callee's architecture, both the stack pointer
/// and the program counter are in its validity set, the program counter is
/// non-zero and covered by a module or accepted by the oracle, and the
/// stack pointer lies strictly above the callee's.
pub open spec fn spec_cfi_acceptable<P: SymbolProvider>(
    provider: &P,
    modules: Seq<Module>,
    callee: StackFrame,
    cctx: CpuContext,
) -> bool {
    &&& cctx.wf()
    &&& cctx.arch == callee.context.arch
    &&& cctx.valid@[spec_sp_index(cctx.arch)]
    &&& cctx.valid@[spec_pc_index(cctx.arch)]
    &&& cctx.spec_pc_raw() != 0
    &&& cctx.spec_sp_raw() > callee.context.spec_sp_raw()
    &&& (spec_module_index_at(modules, cctx.spec_pc_raw()) is Some
        || spec_instruction_seems_valid(provider, modules, cctx.spec_pc_raw()))
}

/// Decide one CFI evaluation's outcome from the caller context it built:
/// accepted if and only if `spec_cfi_acceptable` holds of it. This is the
/// post-evaluation half of the driver contract; what the provider did to
/// the walker is never taken on faith, it is re-validated here.
pub fn accept_cfi_caller<P: SymbolProvider>(
    caller_ctx: CpuContext,
    callee: &StackFrame,
    modules: &ModuleList,
    provider: &P,
) -> (r: Option<StackFrame>)
    requires
        callee.context.wf(),
    ensures
        r is Some == spec_cfi_acceptable(provider, modules.modules@, *callee, caller_ctx),
        r matches Some(f) ==> spec_good_caller(provider, modules.modules@, *callee, f)
            && f.trust == FrameTrust::CallFrameInfo && f.module is None && f.instruction
            == caller_ctx.spec_pc_raw() && f.context.equal_to(caller_ctx),
{
    let arch = callee.context.arch;
    let callee_sp = callee.context.sp_raw();
    if !caller_ctx.is_wf() {
        return None;
    }
    if caller_ctx.arch != arch {
        return None;
    }
    let sp = match caller_ctx.get_register_by_index(sp_index(arch)) {
        Option::None => {
            return None;
        },
        Option::Some(v) => v,
    };
    let pc = match caller_ctx.get_register_by_index(pc_index(arch)) {
        Option::None => {
            return None;
        },
        Option::Some(v) => v,
    };
    if pc == 0 {
        return None;
    }
    if sp <= callee_sp {
        return None;
    }
    if modules.module_index_at(pc).is_none() && !instruction_seems_valid_by_symbols(
        pc,
        modules,
        provider,
    ) {
        return None;
    }
    Some(StackFrame::from_context(caller_ctx, FrameTrust::CallFrameInfo))
}

/// Ask the symbol provider to evaluate CFI for the callee frame through the
/// walker capability, then hold whatever it left in the walker to the
/// driver contract. CFI runs only when a loaded module covers the callee's
/// instruction (there is no other source of CFI records).
fn get_caller_by_cfi<P: SymbolProvider>(
    callee: &StackFrame,
    grand_callee_parameter_size: u32,
    stack_memory: &StackMemory,
    modules: &ModuleList,
    provider: &P,
) -> (r: Option<StackFrame>)
    requires
        callee.context.wf(),
    ensures
        r matches Some(f) ==> spec_good_caller(provider, modules.modules@, *callee, f)
            && f.trust == FrameTrust::CallFrameInfo && f.module is None,
        spec_module_index_at(modules.modules@, callee.instruction) is None ==> r is None,
{
    let module_i = match modules.module_index_at(callee.instruction) {
        Option::None => {
            return None;
        },
        Option::Some(i) => i,
    };
    let mut walker = CfiStackWalker {
        instruction: callee.instruction,
        grand_callee_parameter_size,
        callee_ctx: &callee.context,
        caller_ctx: callee.context.caller_seed(),
        stack_memory,
    };
    if !provider.walk_frame(&modules.modules[module_i], &mut walker) {
        return None;
    }
    accept_cfi_caller(walker.caller_ctx, callee, modules, provider)
}

/// The frame-pointer recovery succeeds on this input: the callee's frame
/// pointer is trusted, the two-word frame record at it lies in saved
/// memory, the recovered (masked) return address is non-zero and covered
/// by a module or accepted by the oracle, and the caller's stack pointer
/// would lie strictly above the callee's.
pub open spec fn spec_fp_attempt_ok<P: SymbolProvider>(
    provider: &P,
    modules: Seq<Module>,
    callee: StackFrame,
    mem: StackMemory,
) -> bool {
    let arch = callee.context.arch;
    let ws = spec_word_size(arch);
    let fp = callee.context.spec_reg_raw(spec_fp_index(arch));
    let pc = spec_mask_return_address(arch, mem.spec_read_word((fp + ws) as u64, ws) as u64);
    &&& callee.context.valid@[spec_fp_index(arch)]
    &&& fp + 2 * ws <= u64::MAX
    &&& mem.spec_in_range(fp, ws)
    &&& mem.spec_in_range((fp + ws) as u64, ws)
    &&& pc != 0
    &&& fp + 2 * ws > callee.context.spec_sp_raw()
    &&& (spec_module_index_at(modules, pc) is Some || spec_instruction_seems_valid(
        provider,
        modules,
        pc,
    ))
}

/// What the frame-pointer convention recovers: the saved frame pointer
/// from the word at the callee's FP, the return address from the next word
/// (with arm64 pointer-authentication bits cleared), and the caller's
/// stack pointer just above the record, at FP plus two words.
pub open spec fn spec_fp_frame(callee: StackFrame, mem: StackMemory, caller: StackFrame) -> bool {
    let arch = callee.context.arch;
    let ws = spec_word_size(arch);
    let fp = callee.context.spec_reg_raw(spec_fp_index(arch));
    &&& caller.instruction == spec_mask_return_address(
        arch,
        mem.spec_read_word((fp + ws) as u64, ws) as u64,
    )
    &&& caller.context.spec_sp_raw() == fp + 2 * ws
    &&& caller.context.spec_reg_raw(spec_fp_index(arch)) == mem.spec_read_word(fp, ws)
    &&& caller.context.valid@[spec_fp_index(arch)]
}

/// Recover the caller through the frame-pointer convention. The attempt
/// succeeds exactly when `spec_fp_attempt_ok` holds, and the recovered
/// frame is pinned by `spec_fp_frame`.
fn get_caller_by_frame_pointer<P: SymbolProvider>(
    callee: &StackFrame,
    stack_memory: &StackMemory,
    modules: &ModuleList,
    provider: &P,
) -> (r: Option<StackFrame>)
    requires
        callee.context.wf(),
    ensures
        r matches Some(f) ==> spec_good_caller(provider, modules.modules@, *callee, f)
            && f.trust == FrameTrust::FramePointer && f.module is None && spec_fp_frame(
            *callee,
            *stack_memory,
            f,
        ),
        r is Some == spec_fp_attempt_ok(provider, modules.modules@, *callee, *stack_memory),
{
    let arch = callee.context.arch;
    let ws = word_size(arch);
    let callee_sp = callee.context.sp_raw();
    let fp = match callee.context.get_register_by_index(fp_index(arch)) {
        Option::None => {
            return None;
        },
        Option::Some(v) => v,
    };
    let saved_fp = match stack_memory.read_word(fp, ws) {
        Option::None => {
            return None;
        },
        Option::Some(v) => v,
    };
    let ret_slot = match fp.checked_add(ws as u64) {
        Option::None => {
            return None;
        },
        Option::Some(a) => a,
    };
    let saved_ret = match stack_memory.read_word(ret_slot, ws) {
        Option::None => {
            return None;
        },
        Option::Some(v) => v,
    };
    let caller_sp = match ret_slot.checked_add(ws as u64) {
        Option::None => {
            return None;
        },
        Option::Some(a) => a,
    };
    let pc = mask_return_address(arch, saved_ret);
    if pc == 0 {
        return None;
    }
    if caller_sp <= callee_sp {
        return None;
    }
    if modules.module_index_at(pc).is_none() && !instruction_seems_valid_by_symbols(
        pc,
        modules,
        provider,
    ) {
        return None;
    }
    let mut ctx = callee.context.caller_seed();
    ctx.set_register_by_index(fp_index(arch), saved_fp);
    ctx.set_register_by_index(sp_index(arch), caller_sp);
    ctx.set_register_by_index(pc_index(arch), pc);
    proof {
        assert(spec_fp_index(arch) != spec_sp_index(arch) && spec_fp_index(arch)
            != spec_pc_index(arch) && spec_sp_index(arch) != spec_pc_index(arch));
    }
    Some(StackFrame::from_context(ctx, FrameTrust::FramePointer))
}

/// The `i`-th scanned slot (counting words up from the callee's stack
/// pointer) holds an acceptable return-address candidate: the slot lies in
/// saved memory without wrapping the address space, and the masked word is
/// non-zero and accepted by the symbols oracle.
pub open spec fn spec_scan_slot_ok<P: SymbolProvider>(
    provider: &P,
    modules: Seq<Module>,
    callee: StackFrame,
    mem: StackMemory,
    i: int,
) -> bool {
    let arch = callee.context.arch;
    let ws = spec_word_size(arch);
    let sp = callee.context.spec_sp_raw();
    let pc = spec_scan_slot_pc(callee, mem, i);
    &&& sp + i * ws + ws <= u64::MAX
    &&& mem.spec_in_range((sp + i * ws) as u64, ws)
    &&& pc != 0
    &&& spec_instruction_seems_valid(provider, modules, pc)
}

/// The masked candidate return address read from the `i`-th scanned slot.
pub open spec fn spec_scan_slot_pc(callee: StackFrame, mem: StackMemory, i: int) -> u64 {
    let arch = callee.context.arch;
    let ws = spec_word_size(arch);
    let sp = callee.context.spec_sp_raw();
    spec_mask_return_address(arch, mem.spec_read_word((sp + i * ws) as u64, ws) as u64)
}

/// The first accepted slot at or after `i`, within the scan bound.
pub open spec fn spec_scan_first<P: SymbolProvider>(
    provider: &P,
    modules: Seq<Module>,
    callee: StackFrame,
    mem: StackMemory,
    i: int,
) -> Option<int>
    decreases SCAN_MAX_WORDS - i,
{
    if i >= SCAN_MAX_WORDS {
        None
    } else if spec_scan_slot_ok(provider, modules, callee, mem, i) {
        Some(i)
    } else {
        spec_scan_first(provider, modules, callee, mem, i + 1)
    }
}

proof fn lemma_scan_first_found<P: SymbolProvider>(
    provider: &P,
    modules: Seq<Module>,
    callee: StackFrame,
    mem: StackMemory,
    k: int,
    i: int,
)
    requires
        0 <= k <= i < SCAN_MAX_WORDS,
        forall|j: int| k <= j < i ==> !spec_scan_slot_ok(provider, modules, callee, mem, j),
        spec_scan_slot_ok(provider, modules, callee, mem, i),
    ensures
        spec_scan_first(provider, modules, callee, mem, k) == Some(i),
    decreases i - k,
{
    if k < i {
        lemma_scan_first_found(provider, modules, callee, mem, k + 1, i);
    }
}

proof fn lemma_scan_first_none<P: SymbolProvider>(
    provider: &P,
    modules: Seq<Module>,
    callee: StackFrame,
    mem: StackMemory,
    k: int,
)
    requires
        0 <= k,
        forall|j: int|
            k <= j < SCAN_MAX_WORDS ==> !spec_scan_slot_ok(provider, modules, callee, mem, j),
    ensures
        spec_scan_first(provider, modules, callee, mem, k) is None,
    decreases SCAN_MAX_WORDS - k,
{
    if k < SCAN_MAX_WORDS {
        lemma_scan_first_none(provider, modules, callee, mem, k + 1);
    }
}

/// The scan's outcome as a function of its inputs: nothing without a
/// trusted callee stack pointer; otherwise the frame built from the first
/// accepted slot, or nothing when no slot within the bound is accepted.
pub open spec fn spec_scan_outcome<P: SymbolProvider>(
    provider: &P,
    modules: Seq<Module>,
    callee: StackFrame,
    mem: StackMemory,
    r: Option<StackFrame>,
) -> bool {
    if !callee.context.valid@[spec_sp_index(callee.context.arch)] {
        r is None
    } else {
        match spec_scan_first(provider, modules, callee, mem, 0) {
            Option::None => r is None,
            Option::Some(i) => r matches Some(f) && f.trust == FrameTrust::Scan && f.instruction
                == spec_scan_slot_pc(callee, mem, i) && f.context.spec_sp_raw()
                == callee.context.spec_sp_raw() + (i + 1) * spec_word_size(callee.context.arch),
        }
    }
}

/// Recover the caller by scanning plausible stack slots upward from the
/// callee's stack pointer for a word the symbols oracle accepts as a
/// return address. The outcome is exactly `spec_scan_outcome`: the first
/// accepted slot within the bound wins, and a zero word is never accepted.
fn get_caller_by_scan<P: SymbolProvider>(
    callee: &StackFrame,
    stack_memory: &StackMemory,
    modules: &ModuleList,
    provider: &P,
) -> (r: Option<StackFrame>)
    requires
        callee.context.wf(),
    ensures
        r matches Some(f) ==> spec_good_caller(provider, modules.modules@, *callee, f)
            && f.trust == FrameTrust::Scan && f.module is None,
        spec_scan_outcome(provider, modules.modules@, *callee, *stack_memory, r),
{
    let arch = callee.context.arch;
    let ws = word_size(arch);
    let start_sp = match callee.context.get_register_by_index(sp_index(arch)) {
        Option::None => {
            return None;
        },
        Option::Some(v) => v,
    };
    let callee_sp = callee.context.sp_raw();
    let mut i: u64 = 0;
    while i < SCAN_MAX_WORDS
        invariant
            callee.context.wf(),
            ws == spec_word_size(arch),
            ws == 4 || ws == 8,
            arch == callee.context.arch,
            callee_sp == callee.context.spec_sp_raw(),
            start_sp == callee_sp,
            callee.context.valid@[spec_sp_index(arch)],
            i <= SCAN_MAX_WORDS,
            forall|j: int|
                0 <= j < i ==> !spec_scan_slot_ok(
                    provider,
                    modules.modules@,
                    *callee,
                    *stack_memory,
                    j,
                ),
        decreases SCAN_MAX_WORDS - i,
    {
        proof {
            lemma_mul_inequality(i as int, 39, ws as int);
        }
        let off = i * (ws as u64);
        if start_sp > u64::MAX - off {
            // Every later slot lies even further beyond the address space.
            proof {
                assert forall|j: int|
                    0 <= j < SCAN_MAX_WORDS implies !spec_scan_slot_ok(
                    provider,
                    modules.modules@,
                    *callee,
                    *stack_memory,
                    j,
                ) by {
                    if j >= i {
                        lemma_mul_inequality(i as int, j, ws as int);
                    }
                }
                lemma_scan_first_none(provider, modules.modules@, *callee, *stack_memory, 0);
            }
            return None;
        }
        let addr = start_sp + off;
        match stack_memory.read_word(addr, ws) {
            Option::None => (),
            Option::Some(word) => {
                let pc = mask_return_address(arch, word);
                if pc != 0 && instruction_seems_valid_by_symbols(pc, modules, provider) {
                    match addr.checked_add(ws as u64) {
                        Option::None => (),
                        Option::Some(caller_sp) => {
                            let mut ctx = callee.context.caller_seed();
                            ctx.set_register_by_index(sp_index(arch), caller_sp);
                            ctx.set_register_by_index(pc_index(arch), pc);
                            proof {
                                assert(spec_sp_index(arch) != spec_pc_index(arch));
                                assert(spec_scan_slot_ok(
                                    provider,
                                    modules.modules@,
                                    *callee,
                                    *stack_memory,
                                    i as int,
                                ));
                                lemma_scan_first_found(
                                    provider,
                                    modules.modules@,
                                    *callee,
                                    *stack_memory,
                                    0,
                                    i as int,
                                );
                                lemma_mul_inequality(
                                    i as int + 1,
                                    SCAN_MAX_WORDS as int,
                                    ws as int,
                                );
                            }
                            return Some(StackFrame::from_context(ctx, FrameTrust::Scan));
                        },
                    }
                }
            },
        }
        i = i + 1;
    }
    proof {
        lemma_scan_first_none(provider, modules.modules@, *callee, *stack_memory, 0);
    }
    None
}

/// One unwind step: try CFI, then the frame-pointer convention, then the
/// scan; the first strategy that yields a valid caller frame wins. With no
/// saved stack memory no strategy can work and the walk ends at the seed.
///
/// Where no loaded module covers the callee's instruction, no CFI record
/// exists and the outcome is a function of the inputs alone: the contract
/// then owes the frame-pointer frame when that recovery succeeds, the
/// first accepted scan frame otherwise, and nothing only when both fail.
pub fn get_caller_frame<P: SymbolProvider>(
    callee_frame: &StackFrame,
    grand_callee_frame: Option<&StackFrame>,
    stack_memory: Option<&StackMemory>,
    modules: &ModuleList,
    provider: &P,
) -> (r: Option<StackFrame>)
    requires
        callee_frame.context.wf(),
    ensures
        r matches Some(f) ==> spec_good_caller(provider, modules.modules@, *callee_frame, f)
            && f.module is None,
        match stack_memory {
            Option::None => r is None,
            Option::Some(m) => {
                &&& (match r {
                    Option::Some(f) => f.trust == FrameTrust::FramePointer ==> spec_fp_frame(
                        *callee_frame,
                        *m,
                        f,
                    ),
                    Option::None => true,
                })
                &&& (spec_module_index_at(modules.modules@, callee_frame.instruction) is None
                    ==> {
                    &&& (spec_fp_attempt_ok(provider, modules.modules@, *callee_frame, *m) ==> (
                    r matches Some(f) && f.trust == FrameTrust::FramePointer))
                    &&& (!spec_fp_attempt_ok(provider, modules.modules@, *callee_frame, *m)
                        ==> spec_scan_outcome(provider, modules.modules@, *callee_frame, *m, r))
                })
            },
        },
{
    let mem = match stack_memory {
        Option::None => {
            return None;
        },
        Option::Some(m) => m,
    };
    // The callee of the callee may have stack arguments whose size some CFI
    // expressions refer to.
    let grand_callee_parameter_size: u32 = match grand_callee_frame {
        Option::None => 0,
        Option::Some(g) => match g.parameter_size {
            Option::None => 0,
            Option::Some(p) => p,
        },
    };
    match get_caller_by_cfi(callee_frame, grand_callee_parameter_size, mem, modules, provider) {
        Option::Some(f) => {
            return Some(f);
        },
        Option::None => (),
    }
    match get_caller_by_frame_pointer(callee_frame, mem, modules, provider) {
        Option::Some(f) => {
            return Some(f);
        },
        Option::None => (),
    }
    get_caller_by_scan(callee_frame, mem, modules, provider)
}

/// Every adjacent pair of frames is a callee and a valid caller recovered
/// from it.
pub open spec fn spec_frames_chained<P: SymbolProvider>(
    provider: &P,
    modules: Seq<Module>,
    frames: Seq<StackFrame>,
) -> bool {
    forall|k: int|
        1 <= k < frames.len() ==> spec_good_caller(
            provider,
            modules,
            frames[k - 1],
            #[trigger] frames[k],
        )
}

/// The module and symbol fields of a frame agree with the module map and
/// the provider's model.
pub open spec fn spec_frame_module_resolved<P: SymbolProvider>(
    provider: &P,
    modules: Seq<Module>,
    f: StackFrame,
) -> bool {
    match spec_module_index_at(modules, f.instruction) {
        Option::None => f.module is None,
        Option::Some(i) => {
            &&& (f.module matches Some(m) && spec_module_like(m, modules[i]))
            &&& match provider.spec_lookup(
                modules[i].name@,
                modules[i].base_of_image,
                f.instruction,
            ) {
                SymLookupV::Found(info) => {
                    &&& (f.function_name matches Some(n) && n@ == info.name)
                    &&& f.function_base == Some(info.base)
                    &&& f.parameter_size == Some(info.parameter_size)
                    &&& match info.file {
                        Option::Some(fl) => f.source_file_name matches Some(pf) && pf@ == fl,
                        Option::None => f.source_file_name is None,
                    }
                    &&& f.source_line == info.line
                    &&& f.source_line_base == info.line_base
                },
                _ => true,
            }
        },
    }
}

/// In a completed walk the stack pointers of the frames are strictly
/// monotonically increasing: every unwind step moved outward.
pub proof fn lemma_walked_sp_monotone<P: SymbolProvider>(
    provider: &P,
    modules: Seq<Module>,
    frames: Seq<StackFrame>,
    i: int,
    j: int,
)
    requires
        spec_frames_chained(provider, modules, frames),
        0 <= i < j < frames.len(),
    ensures
        frames[i].context.spec_sp_raw() < frames[j].context.spec_sp_raw(),
    decreases j - i,
{
    if i + 1 < j {
        lemma_walked_sp_monotone(provider, modules, frames, i + 1, j);
    }
}

/// Law: in a completed walk every frame below the seed came out of an
/// unwind strategy, so its program counter is non-zero (a zero return
/// address, whether CFI produced it or a scan read it, is rejected), and it
/// lies in a loaded module or passes the symbols probe.
pub proof fn lemma_walked_frame_covered<P: SymbolProvider>(
    provider: &P,
    modules: Seq<Module>,
    frames: Seq<StackFrame>,
    k: int,
)
    requires
        spec_frames_chained(provider, modules, frames),
        1 <= k < frames.len(),
    ensures
        frames[k].instruction != 0,
        spec_module_index_at(modules, frames[k].instruction) is Some
            || spec_instruction_seems_valid(provider, modules, frames[k].instruction),
{
}

/// Law: a frame recovered by the heuristic scan was accepted by the
/// symbols validity oracle for its instruction address.
pub proof fn lemma_scan_frame_seems_valid<P: SymbolProvider>(
    provider: &P,
    modules: Seq<Module>,
    frames: Seq<StackFrame>,
    k: int,
)
    requires
        spec_frames_chained(provider, modules, frames),
        1 <= k < frames.len(),
        frames[k].trust == FrameTrust::Scan,
    ensures
        spec_instruction_seems_valid(provider, modules, frames[k].instruction),
{
}

/// Law: with an empty module map no frame resolves to a module; the walk
/// itself still runs and terminates.
pub proof fn lemma_no_modules_no_resolution<P: SymbolProvider>(provider: &P, f: StackFrame)
    requires
        spec_frame_module_resolved(provider, Seq::<Module>::empty(), f),
    ensures
        f.module is None,
{
}

/// Walk one thread's stack. A missing context yields an empty stack marked
/// `MissingContext`; otherwise the seed frame is built from the context and
/// callers are recovered until no strategy produces a valid one. The walk
/// terminates because every recovered caller strictly raises the stack
/// pointer, which is bounded.
pub fn walk_stack<P: SymbolProvider>(
    maybe_context: Option<&CpuContext>,
    stack_memory: Option<&StackMemory>,
    modules: &ModuleList,
    provider: &P,
) -> (r: CallStack)
    requires
        maybe_context matches Some(c) ==> c.wf(),
    ensures
        r.thread_id == 0,
        r.thread_name is None,
        r.last_error_value is None,
        maybe_context is None ==> r.info == CallStackInfo::MissingContext && r.frames@.len()
            == 0,
        maybe_context matches Some(c) ==> {
            &&& r.info == CallStackInfo::StackOk
            &&& r.frames@.len() >= 1
            &&& r.frames@[0].trust == FrameTrust::Context
            &&& r.frames@[0].context.equal_to(*c)
            &&& r.frames@[0].instruction == c.spec_pc_raw()
            &&& (stack_memory is None ==> r.frames@.len() == 1)
            &&& spec_frames_chained(provider, modules.modules@, r.frames@)
            &&& (forall|k: int|
                0 <= k < r.frames@.len() ==> (#[trigger] r.frames@[k]).context.wf())
            &&& (forall|k: int|
                0 <= k < r.frames@.len() ==> spec_frame_module_resolved(
                    provider,
                    modules.modules@,
                    #[trigger] r.frames@[k],
                ))
        },
{
    let context = match maybe_context {
        Option::None => {
            return CallStack::with_info(0, CallStackInfo::MissingContext);
        },
        Option::Some(c) => c,
    };
    let mut frames: Vec<StackFrame> = Vec::new();
    let mut seed = StackFrame::from_context(context.duplicate(), FrameTrust::Context);
    fill_source_line_info(&mut seed, modules, provider);
    frames.push(seed);
    loop
        invariant
            maybe_context matches Some(c) ==> c.wf() && frames@.len() >= 1 && frames@[0].trust
                == FrameTrust::Context && frames@[0].context.equal_to(*c)
                && frames@[0].instruction == c.spec_pc_raw(),
            maybe_context is Some,
            frames@.len() >= 1,
            stack_memory is None ==> frames@.len() == 1,
            spec_frames_chained(provider, modules.modules@, frames@),
            forall|k: int| 0 <= k < frames@.len() ==> (#[trigger] frames@[k]).context.wf(),
            forall|k: int|
                0 <= k < frames@.len() ==> spec_frame_module_resolved(
                    provider,
                    modules.modules@,
                    #[trigger] frames@[k],
                ),
        decreases u64::MAX - frames@[frames@.len() - 1].context.spec_sp_raw(),
    {
        let n = frames.len();
        let maybe_frame = if n >= 2 {
            get_caller_frame(&frames[n - 1], Some(&frames[n - 2]), stack_memory, modules, provider)
        } else {
            get_caller_frame(&frames[n - 1], None, stack_memory, modules, provider)
        };
        match maybe_frame {
            Option::None => {
                break;
            },
            Option::Some(f) => {
                let mut f = f;
                fill_source_line_info(&mut f, modules, provider);
                frames.push(f);
            },
        }
    }
    CallStack {
        frames,
        info: CallStackInfo::StackOk,
        thread_id: 0,
        thread_name: None,
        last_error_value: None,
    }
}

} // verus!
