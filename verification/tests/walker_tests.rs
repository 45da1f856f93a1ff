use minidump_processor::cfi::CfiStackWalker;
use minidump_processor::context::{CpuArch, CpuContext};
use minidump_processor::memory::StackMemory;
use minidump_processor::modules::{Module, ModuleList};
use minidump_processor::process_state::{FrameTrust, StackFrame};
use minidump_processor::stackwalker::{
    accept_cfi_caller, get_caller_frame, instruction_seems_valid_by_symbols, walk_stack,
};
use minidump_processor::symbols::{
    EmptySymbolProvider, SymLookup, SymLookupV, SymbolInfo, SymbolProvider,
};

fn amd64_regs(sp: u64, pc: u64, fp: u64) -> Vec<u64> {
    let mut regs = vec![0u64; 17];
    regs[7] = sp;
    regs[16] = pc;
    regs[6] = fp;
    regs
}

fn one_module(name: &str, base: u64, size: u64) -> ModuleList {
    ModuleList {
        modules: vec![Module {
            name: name.to_string(),
            base_of_image: base,
            size_of_image: size,
        }],
    }
}

/// A provider whose symbol answers are scripted per call and that never
/// evaluates CFI.
struct ScriptedSymbols {
    answer: fn(u64) -> SymLookup,
}

impl SymbolProvider for ScriptedSymbols {
    fn spec_lookup(
        &self,
        _module_name: vstd::prelude::Seq<char>,
        _module_base: u64,
        _instruction: u64,
    ) -> SymLookupV {
        unreachable!()
    }
    fn fill_symbol(&self, _module: &Module, instruction: u64) -> SymLookup {
        (self.answer)(instruction)
    }
    fn walk_frame(&self, _module: &Module, _walker: &mut CfiStackWalker) -> bool {
        false
    }
    fn stats(&self) -> Vec<(String, u64)> {
        Vec::new()
    }
}

fn found(name: &str) -> SymLookup {
    SymLookup::Found(SymbolInfo {
        function_name: name.to_string(),
        function_base: 0x1000,
        parameter_size: 0,
        source_file: None,
        source_line: None,
        source_line_base: None,
    })
}

#[test]
fn read_word_little_endian() {
    let mem = StackMemory {
        base_address: 0x100,
        bytes: vec![0x01, 0x02, 0x03, 0x04, 0x05, 0x06, 0x07, 0x08],
    };
    assert_eq!(mem.read_word(0x100, 8), Some(0x0807060504030201));
    assert_eq!(mem.read_word(0x100, 4), Some(0x04030201));
    assert_eq!(mem.read_word(0x104, 4), Some(0x08070605));
    assert_eq!(mem.read_word(0x101, 8), None);
    assert_eq!(mem.read_word(0xff, 4), None);
    assert_eq!(mem.read_word(0x105, 4), None);
}

#[test]
fn context_register_access() {
    let mut ctx = CpuContext::from_regs(CpuArch::Amd64, amd64_regs(0x7000, 0x1010, 0x7040));
    assert_eq!(ctx.get_register("rsp"), Some(0x7000));
    assert_eq!(ctx.get_register("rip"), Some(0x1010));
    assert_eq!(ctx.get_register("nosuch"), None);
    assert_eq!(ctx.set_register("rax", 42), Some(()));
    assert_eq!(ctx.get_register("rax"), Some(42));
    assert_eq!(ctx.set_register("bogus", 1), None);
    assert_eq!(ctx.memoize_register("r13"), Some(13));
    assert_eq!(ctx.memoize_register("r16"), None);
    assert_eq!(ctx.stack_pointer_register_name(), "rsp");
    assert_eq!(ctx.instruction_pointer_register_name(), "rip");
}

#[test]
fn context_32bit_write_fails_silently() {
    let mut ctx = CpuContext::from_regs(CpuArch::X86, vec![0u64; 9]);
    assert_eq!(ctx.set_register("eax", 0x1_0000_0000), None);
    assert_eq!(ctx.get_register("eax"), Some(0));
    assert_eq!(ctx.set_register("eax", 0xffff_ffff), Some(()));
    assert_eq!(ctx.get_register("eax"), Some(0xffff_ffff));
}

#[test]
fn context_validity_respected() {
    let mut ctx = CpuContext::new_invalid(CpuArch::Arm);
    assert_eq!(ctx.get_register("r0"), None);
    assert_eq!(ctx.set_register("r0", 7), Some(()));
    assert_eq!(ctx.get_register("r0"), Some(7));
}

#[test]
fn oracle_rejects_zero_and_unmapped() {
    let provider = EmptySymbolProvider {};
    let modules = one_module("a.so", 0x1000, 0x1000);
    assert!(!instruction_seems_valid_by_symbols(0, &modules, &provider));
    assert!(!instruction_seems_valid_by_symbols(0x5000, &modules, &provider));
    // probe at pc-1 inside the module, provider has no symbols: accepted
    assert!(instruction_seems_valid_by_symbols(0x1010, &modules, &provider));
}

#[test]
fn oracle_follows_symbols() {
    let modules = one_module("a.so", 0x1000, 0x1000);
    let yes = ScriptedSymbols { answer: |_| found("f") };
    assert!(instruction_seems_valid_by_symbols(0x1010, &modules, &yes));
    let empty_name = ScriptedSymbols { answer: |_| found("") };
    assert!(!instruction_seems_valid_by_symbols(0x1010, &modules, &empty_name));
    let not_found = ScriptedSymbols { answer: |_| SymLookup::NotFound };
    assert!(!instruction_seems_valid_by_symbols(0x1010, &modules, &not_found));
    let no_symbols = ScriptedSymbols { answer: |_| SymLookup::NoSymbols };
    assert!(instruction_seems_valid_by_symbols(0x1010, &modules, &no_symbols));
}

#[test]
fn amd64_frame_pointer_chain() {
    // Frame record at rbp: [rbp] = saved rbp, [rbp+8] = return address.
    let sp = 0x7000u64;
    let fp = 0x7040u64;
    let mut bytes = vec![0u8; 0x100];
    let off = (fp - sp) as usize;
    bytes[off..off + 8].copy_from_slice(&0x7080u64.to_le_bytes());
    bytes[off + 8..off + 16].copy_from_slice(&0x1234u64.to_le_bytes());
    let mem = StackMemory { base_address: sp, bytes };
    let modules = one_module("a.so", 0x1000, 0x1000);
    let provider = EmptySymbolProvider {};
    // Seed instruction outside the module map, so CFI is not attempted.
    let ctx = CpuContext::from_regs(CpuArch::Amd64, amd64_regs(sp, 0x9999, fp));
    let callee = StackFrame::from_context(ctx, FrameTrust::Context);
    let caller = get_caller_frame(&callee, None, Some(&mem), &modules, &provider)
        .expect("frame pointer recovery");
    assert_eq!(caller.trust, FrameTrust::FramePointer);
    assert_eq!(caller.instruction, 0x1234);
    assert_eq!(caller.context.get_register("rsp"), Some(fp + 16));
    assert_eq!(caller.context.get_register("rbp"), Some(0x7080));
}

#[test]
fn amd64_scan_recovers_return_address() {
    let sp = 0x7000u64;
    // No usable frame pointer: point it outside the saved memory.
    let mut bytes = vec![0u8; 0x100];
    // A plausible return address two slots up the stack.
    bytes[16..24].copy_from_slice(&0x1234u64.to_le_bytes());
    let mem = StackMemory { base_address: sp, bytes };
    let modules = one_module("a.so", 0x1000, 0x1000);
    let provider = EmptySymbolProvider {};
    let ctx = CpuContext::from_regs(CpuArch::Amd64, amd64_regs(sp, 0x9999, 0x1));
    let callee = StackFrame::from_context(ctx, FrameTrust::Context);
    let caller = get_caller_frame(&callee, None, Some(&mem), &modules, &provider)
        .expect("scan recovery");
    assert_eq!(caller.trust, FrameTrust::Scan);
    assert_eq!(caller.instruction, 0x1234);
    assert_eq!(caller.context.get_register("rsp"), Some(sp + 24));
}

#[test]
fn x86_frame_pointer_chain() {
    let sp = 0x7000u64;
    let fp = 0x7020u64;
    let mut bytes = vec![0u8; 0x100];
    let off = (fp - sp) as usize;
    bytes[off..off + 4].copy_from_slice(&0x7050u32.to_le_bytes());
    bytes[off + 4..off + 8].copy_from_slice(&0x1234u32.to_le_bytes());
    let mem = StackMemory { base_address: sp, bytes };
    let modules = one_module("a.so", 0x1000, 0x1000);
    let provider = EmptySymbolProvider {};
    let mut regs = vec![0u64; 9];
    regs[7] = sp;
    regs[8] = 0x9999;
    regs[6] = fp;
    let ctx = CpuContext::from_regs(CpuArch::X86, regs);
    let callee = StackFrame::from_context(ctx, FrameTrust::Context);
    let caller = get_caller_frame(&callee, None, Some(&mem), &modules, &provider)
        .expect("frame pointer recovery");
    assert_eq!(caller.trust, FrameTrust::FramePointer);
    assert_eq!(caller.instruction, 0x1234);
    assert_eq!(caller.context.get_register("esp"), Some(fp + 8));
    assert_eq!(caller.context.get_register("ebp"), Some(0x7050));
}

#[test]
fn arm_frame_pointer_chain() {
    // On arm the frame pointer is r11; the record holds {saved fp, saved
    // return address} in 4-byte words.
    let sp = 0x7000u64;
    let fp = 0x7020u64;
    let mut bytes = vec![0u8; 0x100];
    let off = (fp - sp) as usize;
    bytes[off..off + 4].copy_from_slice(&0x7050u32.to_le_bytes());
    bytes[off + 4..off + 8].copy_from_slice(&0x1234u32.to_le_bytes());
    let mem = StackMemory { base_address: sp, bytes };
    let modules = one_module("a.so", 0x1000, 0x1000);
    let provider = EmptySymbolProvider {};
    let mut regs = vec![0u64; 16];
    regs[13] = sp;
    regs[15] = 0x9999;
    regs[11] = fp;
    let ctx = CpuContext::from_regs(CpuArch::Arm, regs);
    let callee = StackFrame::from_context(ctx, FrameTrust::Context);
    let caller = get_caller_frame(&callee, None, Some(&mem), &modules, &provider)
        .expect("frame pointer recovery");
    assert_eq!(caller.trust, FrameTrust::FramePointer);
    assert_eq!(caller.instruction, 0x1234);
    assert_eq!(caller.context.get_register("sp"), Some(fp + 8));
    assert_eq!(caller.context.get_register("r11"), Some(0x7050));
}

#[test]
fn arm64_pointer_authentication_masked() {
    let sp = 0x7000u64;
    let fp = 0x7040u64;
    let mut bytes = vec![0u8; 0x100];
    let off = (fp - sp) as usize;
    bytes[off..off + 8].copy_from_slice(&0x7080u64.to_le_bytes());
    // Saved return address with pointer-authentication bits in the top byte.
    bytes[off + 8..off + 16].copy_from_slice(&0xaa00_0000_0000_1234u64.to_le_bytes());
    let mem = StackMemory { base_address: sp, bytes };
    let modules = one_module("a.so", 0x1000, 0x1000);
    let provider = EmptySymbolProvider {};
    let mut regs = vec![0u64; 33];
    regs[31] = sp;
    regs[32] = 0x9999;
    regs[29] = fp;
    let ctx = CpuContext::from_regs(CpuArch::Arm64, regs);
    let callee = StackFrame::from_context(ctx, FrameTrust::Context);
    let caller = get_caller_frame(&callee, None, Some(&mem), &modules, &provider)
        .expect("frame pointer recovery");
    assert_eq!(caller.trust, FrameTrust::FramePointer);
    assert_eq!(caller.instruction, 0x1234);
    assert_eq!(caller.context.get_register("sp"), Some(fp + 16));
}

#[test]
fn walk_without_context_reports_missing() {
    let modules = ModuleList { modules: Vec::new() };
    let provider = EmptySymbolProvider {};
    let stack = walk_stack(None, None, &modules, &provider);
    assert_eq!(stack.frames.len(), 0);
    assert_eq!(
        stack.info,
        minidump_processor::process_state::CallStackInfo::MissingContext
    );
}

#[test]
fn walk_without_memory_yields_seed_only() {
    let modules = one_module("a.so", 0x1000, 0x1000);
    let provider = EmptySymbolProvider {};
    let ctx = CpuContext::from_regs(CpuArch::Amd64, amd64_regs(0x7000, 0x1010, 0x7040));
    let stack = walk_stack(Some(&ctx), None, &modules, &provider);
    assert_eq!(stack.frames.len(), 1);
    assert_eq!(stack.frames[0].trust, FrameTrust::Context);
    assert_eq!(stack.frames[0].instruction, 0x1010);
}

#[test]
fn walk_sp_strictly_increases() {
    // Chain two frame-pointer records and check the recovered stack
    // pointers strictly increase along the walk.
    let sp = 0x7000u64;
    let fp1 = 0x7040u64;
    let fp2 = 0x7080u64;
    let mut bytes = vec![0u8; 0x200];
    let off1 = (fp1 - sp) as usize;
    bytes[off1..off1 + 8].copy_from_slice(&fp2.to_le_bytes());
    bytes[off1 + 8..off1 + 16].copy_from_slice(&0x1234u64.to_le_bytes());
    let off2 = (fp2 - sp) as usize;
    bytes[off2..off2 + 8].copy_from_slice(&0u64.to_le_bytes());
    bytes[off2 + 8..off2 + 16].copy_from_slice(&0x1444u64.to_le_bytes());
    let mem = StackMemory { base_address: sp, bytes };
    let modules = one_module("a.so", 0x1000, 0x1000);
    let provider = EmptySymbolProvider {};
    let ctx = CpuContext::from_regs(CpuArch::Amd64, amd64_regs(sp, 0x9999, fp1));
    let stack = walk_stack(Some(&ctx), Some(&mem), &modules, &provider);
    assert!(stack.frames.len() >= 2);
    for w in stack.frames.windows(2) {
        let a = w[0].context.get_register("rsp").unwrap_or(sp);
        let b = w[1].context.get_register("rsp").unwrap();
        assert!(b > a || w[0].trust == FrameTrust::Context);
    }
}

#[test]
fn cfi_acceptance_follows_driver_contract() {
    // The post-evaluation half of the CFI driver contract: accepted iff
    // both SP and PC were established, the PC is non-zero and covered, and
    // the SP lies strictly above the callee's.
    let modules = one_module("a.so", 0x1000, 0x1000);
    let provider = EmptySymbolProvider {};
    let callee_ctx = CpuContext::from_regs(CpuArch::Amd64, amd64_regs(0x7000, 0x1010, 0));
    let callee = StackFrame::from_context(callee_ctx, FrameTrust::Context);
    let mut good = callee.context.caller_seed();
    good.set_register("rsp", 0x7010).unwrap();
    good.set_register("rip", 0x1020).unwrap();
    let accepted = accept_cfi_caller(good, &callee, &modules, &provider).expect("accepted");
    assert_eq!(accepted.trust, FrameTrust::CallFrameInfo);
    assert_eq!(accepted.instruction, 0x1020);
    // A zero program counter is rejected.
    let mut zero_pc = callee.context.caller_seed();
    zero_pc.set_register("rsp", 0x7010).unwrap();
    zero_pc.set_register("rip", 0).unwrap();
    assert!(accept_cfi_caller(zero_pc, &callee, &modules, &provider).is_none());
    // A stack pointer not strictly above the callee's is rejected.
    let mut low_sp = callee.context.caller_seed();
    low_sp.set_register("rsp", 0x7000).unwrap();
    low_sp.set_register("rip", 0x1020).unwrap();
    assert!(accept_cfi_caller(low_sp, &callee, &modules, &provider).is_none());
    // Evaluation that never established the stack pointer did not succeed.
    let mut no_sp = callee.context.caller_seed();
    no_sp.set_register("rip", 0x1020).unwrap();
    assert!(accept_cfi_caller(no_sp, &callee, &modules, &provider).is_none());
    // An uncovered program counter that the oracle also rejects fails.
    let mut bad_pc = callee.context.caller_seed();
    bad_pc.set_register("rsp", 0x7010).unwrap();
    bad_pc.set_register("rip", 0x9999).unwrap();
    assert!(accept_cfi_caller(bad_pc, &callee, &modules, &provider).is_none());
}

#[test]
fn cfi_walker_capability_surface() {
    let callee = CpuContext::from_regs(CpuArch::Amd64, amd64_regs(0x7000, 0x1010, 0x7040));
    let mem = StackMemory {
        base_address: 0x7000,
        bytes: vec![0xab; 0x40],
    };
    let mut walker = CfiStackWalker {
        instruction: 0x1010,
        grand_callee_parameter_size: 12,
        callee_ctx: &callee,
        caller_ctx: callee.caller_seed(),
        stack_memory: &mem,
    };
    assert_eq!(walker.get_instruction(), 0x1010);
    assert_eq!(walker.get_grand_callee_parameter_size(), 12);
    assert_eq!(walker.get_callee_register("rsp"), Some(0x7000));
    assert_eq!(walker.get_register_at_address(0x7000), Some(0xabab_abab_abab_abab));
    assert_eq!(walker.get_register_at_address(0x6000), None);
    // The caller starts with nothing valid.
    assert_eq!(walker.caller_ctx.get_register("rip"), None);
    assert_eq!(walker.set_caller_register("rbx", 5), Some(()));
    assert_eq!(walker.caller_ctx.get_register("rbx"), Some(5));
    walker.clear_caller_register("rbx");
    assert_eq!(walker.caller_ctx.get_register("rbx"), None);
    assert_eq!(walker.set_cfa(0x7100), Some(()));
    assert_eq!(walker.set_ra(0x1020), Some(()));
    assert_eq!(walker.caller_ctx.get_register("rsp"), Some(0x7100));
    assert_eq!(walker.caller_ctx.get_register("rip"), Some(0x1020));
    assert_eq!(walker.set_caller_register("noreg", 1), None);
}
