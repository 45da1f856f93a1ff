use minidump_processor::cfi::CfiStackWalker;
use minidump_processor::context::{CpuArch, CpuContext};
use minidump_processor::memory::StackMemory;
use minidump_processor::modules::{Module, ModuleList, UnloadedModule, UnloadedModuleList};
use minidump_processor::process_state::{CallStackInfo, FrameTrust};
use minidump_processor::processor::{
    parse_linux_standard_base, parse_microcode_value, process_minidump,
    process_minidump_with_options, BreakpadInfoData, DumpData, Evil, ExceptionData,
    ProcessError, ProcessorOptions, SystemInfoData, ThreadData,
};
use minidump_processor::symbols::{
    EmptySymbolProvider, SymLookup, SymLookupV, SymbolInfo, SymbolProvider,
};

fn amd64_regs(sp: u64, pc: u64, fp: u64) -> Vec<u64> {
    let mut regs = vec![0u64; 17];
    regs[7] = sp;
    regs[16] = pc;
    regs[6] = fp;
    regs
}

fn amd64_ctx(sp: u64, pc: u64) -> CpuContext {
    CpuContext::from_regs(CpuArch::Amd64, amd64_regs(sp, pc, 0))
}

fn basic_system_info() -> SystemInfoData {
    SystemInfoData {
        os: "linux".to_string(),
        os_version: "6.1".to_string(),
        os_build: None,
        cpu: "amd64".to_string(),
        cpu_info: None,
        number_of_processors: 4,
    }
}

fn thread(id: u32, ctx: Option<CpuContext>, stack_base: u64) -> ThreadData {
    ThreadData {
        thread_id: id,
        context: ctx,
        stack_base,
        last_error: None,
    }
}

fn empty_dump() -> DumpData {
    DumpData {
        time_date_stamp: 1234,
        thread_list: Some(Vec::new()),
        thread_names: Vec::new(),
        system_info: Some(basic_system_info()),
        linux_standard_base: None,
        linux_cpu_info: Vec::new(),
        misc_info: None,
        mac_crash_info: None,
        breakpad_info: None,
        exception: None,
        modules: ModuleList { modules: Vec::new() },
        unloaded_modules: UnloadedModuleList { modules: Vec::new() },
        memory_regions: Vec::new(),
        unknown_streams: Vec::new(),
        unimplemented_streams: Vec::new(),
    }
}

/// A provider whose CFI evaluation follows a fixed chain: each step raises
/// the stack pointer by 16 and advances the return address by 16, until
/// the chain's end address is reached.
struct ChainCfiProvider {
    end: u64,
}

impl SymbolProvider for ChainCfiProvider {
    fn spec_lookup(
        &self,
        _module_name: vstd::prelude::Seq<char>,
        _module_base: u64,
        _instruction: u64,
    ) -> SymLookupV {
        unreachable!()
    }
    fn fill_symbol(&self, _module: &Module, _instruction: u64) -> SymLookup {
        SymLookup::Found(SymbolInfo {
            function_name: "func".to_string(),
            function_base: 0x1000,
            parameter_size: 0,
            source_file: Some("lib.c".to_string()),
            source_line: Some(7),
            source_line_base: None,
        })
    }
    fn walk_frame(&self, _module: &Module, walker: &mut CfiStackWalker) -> bool {
        let instr = walker.get_instruction();
        if instr >= self.end {
            return false;
        }
        let sp = walker.get_callee_register("rsp").unwrap();
        walker.set_cfa(sp + 16).unwrap();
        walker.set_ra(instr + 16).unwrap();
        true
    }
    fn stats(&self) -> Vec<(String, u64)> {
        vec![("a.so".to_string(), 1)]
    }
}

#[test]
fn missing_thread_list_is_fatal() {
    let mut dump = empty_dump();
    dump.thread_list = None;
    let provider = EmptySymbolProvider {};
    let r = process_minidump(&dump, &provider);
    assert!(matches!(r, Err(ProcessError::MissingThreadList)));
}

#[test]
fn missing_system_info_is_fatal() {
    let mut dump = empty_dump();
    dump.system_info = None;
    let provider = EmptySymbolProvider {};
    let r = process_minidump(&dump, &provider);
    assert!(matches!(r, Err(ProcessError::MissingSystemInfo)));
}

#[test]
fn amd64_two_threads_with_cfi() {
    // Threads A (crashing) and B, both with CFI-covered stacks 4 frames
    // deep; A's seed comes from the exception context.
    let mut dump = empty_dump();
    dump.modules = ModuleList {
        modules: vec![Module {
            name: "a.so".to_string(),
            base_of_image: 0x1000,
            size_of_image: 0x1000,
        }],
    };
    let exc_ctx = amd64_ctx(0x7000, 0x1010);
    dump.thread_list = Some(vec![
        thread(1, Some(amd64_ctx(0x6000, 0x1008)), 0x7000),
        thread(2, Some(amd64_ctx(0x8000, 0x1010)), 0x8000),
    ]);
    dump.memory_regions = vec![
        StackMemory { base_address: 0x7000, bytes: vec![0; 0x200] },
        StackMemory { base_address: 0x8000, bytes: vec![0; 0x200] },
    ];
    dump.exception = Some(ExceptionData {
        crash_reason: "SIGSEGV".to_string(),
        crash_address: 0xdead,
        crashing_thread_id: 1,
        context: Some(exc_ctx),
    });
    let provider = ChainCfiProvider { end: 0x1040 };
    let state = process_minidump(&dump, &provider).unwrap();
    assert_eq!(state.threads.len(), 2);
    assert_eq!(state.requesting_thread, Some(0));
    assert_eq!(state.crash_reason.as_deref(), Some("SIGSEGV"));
    assert_eq!(state.crash_address, Some(0xdead));
    let a = &state.threads[0];
    assert_eq!(a.info, CallStackInfo::StackOk);
    assert_eq!(a.frames.len(), 4);
    // A's innermost frame equals the exception context, not the thread's own.
    assert_eq!(a.frames[0].instruction, 0x1010);
    assert_eq!(a.frames[0].context.get_register("rsp"), Some(0x7000));
    for f in &a.frames[1..] {
        assert_eq!(f.trust, FrameTrust::CallFrameInfo);
    }
    let b = &state.threads[1];
    assert_eq!(b.frames.len(), 4);
    for f in &b.frames[1..] {
        assert_eq!(f.trust, FrameTrust::CallFrameInfo);
    }
    // Symbolization attached the module and the function record.
    assert_eq!(a.frames[0].module.as_ref().unwrap().name, "a.so");
    assert_eq!(a.frames[0].function_name.as_deref(), Some("func"));
    assert_eq!(a.frames[0].source_file_name.as_deref(), Some("lib.c"));
    assert_eq!(a.frames[0].source_line, Some(7));
}

#[test]
fn dump_writer_thread_skipped() {
    let mut dump = empty_dump();
    dump.thread_list = Some(vec![
        thread(1, Some(amd64_ctx(0x7000, 0x1010)), 0x7000),
        thread(2, Some(amd64_ctx(0x8000, 0x1010)), 0x8000),
    ]);
    dump.breakpad_info = Some(BreakpadInfoData {
        dump_thread_id: Some(2),
        requesting_thread_id: None,
    });
    let provider = EmptySymbolProvider {};
    let state = process_minidump(&dump, &provider).unwrap();
    assert_eq!(state.threads.len(), 2);
    assert_eq!(state.threads[1].info, CallStackInfo::DumpThreadSkipped);
    assert_eq!(state.threads[1].frames.len(), 0);
    assert_eq!(state.threads[1].thread_id, 2);
    // The other thread is unaffected.
    assert_eq!(state.threads[0].info, CallStackInfo::StackOk);
    assert!(state.threads[0].frames.len() >= 1);
}

#[test]
fn exception_overrides_requesting_thread() {
    // Breakpad info nominates B; the exception says A crashed. A wins, and
    // its seed context is the exception context.
    let mut dump = empty_dump();
    let exc_ctx = amd64_ctx(0x7100, 0x4242);
    dump.thread_list = Some(vec![
        thread(1, Some(amd64_ctx(0x7000, 0x1010)), 0x7000),
        thread(2, Some(amd64_ctx(0x8000, 0x1010)), 0x8000),
    ]);
    dump.breakpad_info = Some(BreakpadInfoData {
        dump_thread_id: None,
        requesting_thread_id: Some(2),
    });
    dump.exception = Some(ExceptionData {
        crash_reason: "EXCEPTION_ACCESS_VIOLATION".to_string(),
        crash_address: 0x0,
        crashing_thread_id: 1,
        context: Some(exc_ctx),
    });
    let provider = EmptySymbolProvider {};
    let state = process_minidump(&dump, &provider).unwrap();
    assert_eq!(state.requesting_thread, Some(0));
    assert_eq!(state.threads[0].frames[0].instruction, 0x4242);
    assert_eq!(
        state.threads[0].frames[0].context.get_register("rsp"),
        Some(0x7100)
    );
    // B used its own context.
    assert_eq!(state.threads[1].frames[0].instruction, 0x1010);
}

#[test]
fn unloaded_module_attribution() {
    // The frame's address lies outside every loaded module but inside one
    // unloaded module: the frame records the offset from its base.
    let mut dump = empty_dump();
    dump.thread_list = Some(vec![thread(1, Some(amd64_ctx(0x7000, 0x5000)), 0x7000)]);
    dump.unloaded_modules = UnloadedModuleList {
        modules: vec![UnloadedModule {
            name: "old.dll".to_string(),
            base_of_image: 0x4000,
            size_of_image: 0x2000,
        }],
    };
    let provider = EmptySymbolProvider {};
    let state = process_minidump(&dump, &provider).unwrap();
    let frame = &state.threads[0].frames[0];
    assert!(frame.module.is_none());
    assert_eq!(frame.unloaded_modules.len(), 1);
    assert_eq!(frame.unloaded_modules[0].0, "old.dll");
    assert_eq!(frame.unloaded_modules[0].1, vec![0x1000]);
}

#[test]
fn microcode_extraction_through_processing() {
    let mut dump = empty_dump();
    dump.linux_cpu_info = vec![
        ("vendor_id".to_string(), "x".to_string()),
        ("microcode".to_string(), "0xa0671".to_string()),
    ];
    let provider = EmptySymbolProvider {};
    let state = process_minidump(&dump, &provider).unwrap();
    assert_eq!(state.system_info.cpu_microcode_version, Some(0xa0671));
}

#[test]
fn microcode_value_parsing() {
    assert_eq!(parse_microcode_value("0xa0671"), Some(0xa0671));
    assert_eq!(parse_microcode_value("0xFF"), Some(255));
    assert_eq!(parse_microcode_value("0x0"), Some(0));
    assert_eq!(parse_microcode_value("0xffffffffffffffff"), Some(u64::MAX));
    // Not 0x-prefixed, or not valid hex: no microcode version.
    assert_eq!(parse_microcode_value("a0671"), None);
    assert_eq!(parse_microcode_value("0x"), None);
    assert_eq!(parse_microcode_value("0xzz"), None);
    assert_eq!(parse_microcode_value(""), None);
    assert_eq!(parse_microcode_value("0x10000000000000000"), None);
}

#[test]
fn lsb_accepts_both_spellings() {
    let legacy = vec![
        ("DISTRIB_ID".to_string(), "foo".to_string()),
        ("DISTRIB_RELEASE".to_string(), "1.2".to_string()),
        ("DISTRIB_CODENAME".to_string(), "bar".to_string()),
        ("DISTRIB_DESCRIPTION".to_string(), "Foo 1.2".to_string()),
    ];
    let os_release = vec![
        ("ID".to_string(), "foo".to_string()),
        ("VERSION_ID".to_string(), "1.2".to_string()),
        ("VERSION_CODENAME".to_string(), "bar".to_string()),
        ("PRETTY_NAME".to_string(), "Foo 1.2".to_string()),
    ];
    let a = parse_linux_standard_base(&legacy);
    let b = parse_linux_standard_base(&os_release);
    assert_eq!(a.id, "foo");
    assert_eq!(b.id, "foo");
    assert_eq!(a.release, "1.2");
    assert_eq!(b.release, "1.2");
    assert_eq!(a.codename, "bar");
    assert_eq!(b.codename, "bar");
    assert_eq!(a.description, "Foo 1.2");
    assert_eq!(b.description, "Foo 1.2");
}

#[test]
fn lsb_through_processing() {
    let mut dump = empty_dump();
    dump.linux_standard_base = Some(vec![("ID".to_string(), "debian".to_string())]);
    let provider = EmptySymbolProvider {};
    let state = process_minidump(&dump, &provider).unwrap();
    assert_eq!(state.linux_standard_base.unwrap().id, "debian");
}

#[test]
fn empty_module_list_leaves_frames_unattributed() {
    let mut dump = empty_dump();
    dump.thread_list = Some(vec![thread(1, Some(amd64_ctx(0x7000, 0x1010)), 0x7000)]);
    dump.memory_regions = vec![StackMemory {
        base_address: 0x7000,
        bytes: vec![0; 0x200],
    }];
    let provider = EmptySymbolProvider {};
    let state = process_minidump(&dump, &provider).unwrap();
    let stack = &state.threads[0];
    assert_eq!(stack.info, CallStackInfo::StackOk);
    for f in &stack.frames {
        assert!(f.module.is_none());
    }
}

#[test]
fn absent_stack_memory_yields_seed_only() {
    let mut dump = empty_dump();
    dump.thread_list = Some(vec![thread(1, Some(amd64_ctx(0x7000, 0x1010)), 0x7000)]);
    // No memory regions at all.
    let provider = EmptySymbolProvider {};
    let state = process_minidump(&dump, &provider).unwrap();
    assert_eq!(state.threads[0].frames.len(), 1);
    assert_eq!(state.threads[0].frames[0].trust, FrameTrust::Context);
}

/// A provider whose CFI evaluation recovers a zero program counter.
struct ZeroRaProvider {}

impl SymbolProvider for ZeroRaProvider {
    fn spec_lookup(
        &self,
        _module_name: vstd::prelude::Seq<char>,
        _module_base: u64,
        _instruction: u64,
    ) -> SymLookupV {
        unreachable!()
    }
    fn fill_symbol(&self, _module: &Module, _instruction: u64) -> SymLookup {
        SymLookup::NoSymbols
    }
    fn walk_frame(&self, _module: &Module, walker: &mut CfiStackWalker) -> bool {
        let sp = walker.get_callee_register("rsp").unwrap();
        walker.set_cfa(sp + 16).unwrap();
        walker.set_ra(0).unwrap();
        true
    }
    fn stats(&self) -> Vec<(String, u64)> {
        Vec::new()
    }
}

#[test]
fn cfi_zero_pc_rejected_and_scan_rejects_zero() {
    // CFI recovers PC 0: the frame is rejected; the scan over all-zero
    // stack memory finds nothing either, so only the seed frame remains.
    let mut dump = empty_dump();
    dump.modules = ModuleList {
        modules: vec![Module {
            name: "a.so".to_string(),
            base_of_image: 0x1000,
            size_of_image: 0x1000,
        }],
    };
    dump.thread_list = Some(vec![thread(1, Some(amd64_ctx(0x7000, 0x1010)), 0x7000)]);
    dump.memory_regions = vec![StackMemory {
        base_address: 0x7000,
        bytes: vec![0; 0x200],
    }];
    let provider = ZeroRaProvider {};
    let state = process_minidump(&dump, &provider).unwrap();
    assert_eq!(state.threads[0].frames.len(), 1);
    assert_eq!(state.threads[0].frames[0].trust, FrameTrust::Context);
}

#[test]
fn mac_crash_info_passed_through() {
    let mut dump = empty_dump();
    dump.mac_crash_info = Some(vec!["module: foo".to_string(), "message: bar".to_string()]);
    let provider = EmptySymbolProvider {};
    let state = process_minidump(&dump, &provider).unwrap();
    let info = state.mac_crash_info.unwrap();
    assert_eq!(info.len(), 2);
    assert_eq!(info[0], "module: foo");
    assert_eq!(info[1], "message: bar");
}

#[test]
fn missing_context_reported_per_thread() {
    let mut dump = empty_dump();
    dump.thread_list = Some(vec![thread(1, None, 0x7000)]);
    let provider = EmptySymbolProvider {};
    let state = process_minidump(&dump, &provider).unwrap();
    assert_eq!(state.threads[0].info, CallStackInfo::MissingContext);
    assert_eq!(state.threads[0].frames.len(), 0);
}

#[test]
fn thread_names_prefer_stream_over_evil() {
    let mut dump = empty_dump();
    dump.thread_list = Some(vec![
        thread(1, Some(amd64_ctx(0x7000, 0x1010)), 0x7000),
        thread(2, Some(amd64_ctx(0x8000, 0x1010)), 0x8000),
    ]);
    dump.thread_names = vec![(1, "main".to_string())];
    let evil = Evil {
        thread_names: vec![(1, "shadowed".to_string()), (2, "worker".to_string())],
        certs: vec![("a.so".to_string(), "signer".to_string())],
    };
    let provider = EmptySymbolProvider {};
    let state = process_minidump_with_options(
        &dump,
        &provider,
        ProcessorOptions { evil: Some(evil) },
    )
    .unwrap();
    assert_eq!(state.threads[0].thread_name.as_deref(), Some("main"));
    assert_eq!(state.threads[1].thread_name.as_deref(), Some("worker"));
    assert_eq!(state.cert_info.len(), 1);
    assert_eq!(state.cert_info[0].0, "a.so");
}

#[test]
fn pass_through_fields_preserved() {
    let mut dump = empty_dump();
    dump.misc_info = Some(minidump_processor::processor::MiscInfoData {
        process_id: Some(77),
        process_create_time: Some(999),
    });
    let provider = EmptySymbolProvider {};
    let state = process_minidump(&dump, &provider).unwrap();
    assert_eq!(state.process_id, Some(77));
    assert_eq!(state.process_create_time, Some(999));
    assert_eq!(state.time, 1234);
    assert!(state.mac_crash_info.is_none());
    assert_eq!(state.system_info.os, "linux");
    assert_eq!(state.system_info.cpu_count, 4);
    assert!(state.crash_reason.is_none());
    assert!(state.requesting_thread.is_none());
}
