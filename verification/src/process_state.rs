//! The report data model: stack frames, per-thread call stacks, system
//! information, and the aggregate process state.

use vstd::prelude::*;
use crate::context::CpuContext;
use crate::modules::{Module, ModuleList, UnloadedModuleList};

verus! {

/// Provenance of a frame: which information source produced it.
#[derive(Clone, Copy, Debug, PartialEq, Eq, Structural)]
pub enum FrameTrust {
    /// No source vouches for the frame.
    NoTrust,
    /// Heuristic scan of plausible stack slots.
    Scan,
    /// Frame-pointer chain walking.
    FramePointer,
    /// Call Frame Information from debug symbols.
    CallFrameInfo,
    /// Copied from an earlier walk of the same stack.
    PreWalked,
    /// The dumping kernel wrote this context.
    Context,
}

/// One reconstructed frame. `instruction` is the return address as stored,
/// not decremented; `context` is the register file that would reach this
/// frame on entry.
pub struct StackFrame {
    pub instruction: u64,
    pub trust: FrameTrust,
    pub context: CpuContext,
    pub module: Option<Module>,
    pub function_name: Option<String>,
    pub function_base: Option<u64>,
    pub parameter_size: Option<u32>,
    pub source_file_name: Option<String>,
    pub source_line: Option<u32>,
    pub source_line_base: Option<u64>,
    /// When no loaded module matched: unloaded module name, and the set of
    /// offsets of `instruction` from that module's base.
    pub unloaded_modules: Vec<(String, Vec<u64>)>,
}

impl StackFrame {
    /// The seed frame of a walk: the thread's instruction pointer, with the
    /// given provenance and no symbols attached yet.
    pub fn from_context(context: CpuContext, trust: FrameTrust) -> (r: StackFrame)
        requires
            context.wf(),
        ensures
            r.instruction == context.spec_pc_raw(),
            r.trust == trust,
            r.context.equal_to(context),
            r.context.wf(),
            r.module is None,
            r.function_name is None,
            r.function_base is None,
            r.parameter_size is None,
            r.source_file_name is None,
            r.source_line is None,
            r.source_line_base is None,
            r.unloaded_modules@.len() == 0,
    {
        let instruction = context.pc_raw();
        StackFrame {
            instruction,
            trust,
            context,
            module: None,
            function_name: None,
            function_base: None,
            parameter_size: None,
            source_file_name: None,
            source_line: None,
            source_line_base: None,
            unloaded_modules: Vec::new(),
        }
    }
}

/// Why a thread's walk ended the way it did.
#[derive(Clone, Copy, Debug, PartialEq, Eq, Structural)]
pub enum CallStackInfo {
    /// The walk ran to completion.
    StackOk,
    /// The thread had no usable CPU context.
    MissingContext,
    /// The thread wrote the dump; its stack is uninformative and skipped.
    DumpThreadSkipped,
}

/// The frames of one thread, innermost first.
pub struct CallStack {
    pub frames: Vec<StackFrame>,
    pub info: CallStackInfo,
    pub thread_id: u32,
    pub thread_name: Option<String>,
    pub last_error_value: Option<String>,
}

impl CallStack {
    /// An empty stack carrying only a status.
    pub fn with_info(id: u32, info: CallStackInfo) -> (r: CallStack)
        ensures
            r.thread_id == id,
            r.info == info,
            r.frames@.len() == 0,
            r.thread_name is None,
            r.last_error_value is None,
    {
        CallStack {
            frames: Vec::new(),
            info,
            thread_id: id,
            thread_name: None,
            last_error_value: None,
        }
    }
}

/// The OS/CPU summary of the dump.
pub struct SystemInfo {
    pub os: String,
    pub os_version: Option<String>,
    pub os_build: Option<String>,
    pub cpu: String,
    pub cpu_info: Option<String>,
    pub cpu_microcode_version: Option<u64>,
    pub cpu_count: usize,
}

/// Linux Standard Base release fields, under either their `DISTRIB_*` or
/// their `/etc/os-release` spellings.
pub struct LinuxStandardBase {
    pub id: String,
    pub release: String,
    pub codename: String,
    pub description: String,
}

/// The final report.
pub struct ProcessState {
    pub process_id: Option<u32>,
    /// Seconds since the epoch at which the dump was written.
    pub time: u64,
    pub process_create_time: Option<u64>,
    /// Code-signing metadata from the side-channel enrichment.
    pub cert_info: Vec<(String, String)>,
    pub crash_reason: Option<String>,
    pub crash_address: Option<u64>,
    pub assertion: Option<String>,
    /// Index into `threads` of the thread that requested the dump.
    pub requesting_thread: Option<usize>,
    pub system_info: SystemInfo,
    pub linux_standard_base: Option<LinuxStandardBase>,
    /// Mac crash-info records, already rendered to strings.
    pub mac_crash_info: Option<Vec<String>>,
    pub threads: Vec<CallStack>,
    pub modules: ModuleList,
    pub unloaded_modules: UnloadedModuleList,
    pub unknown_streams: Vec<u32>,
    pub unimplemented_streams: Vec<u32>,
    /// Per-module symbol statistics, as the provider reports them.
    pub symbol_stats: Vec<(String, u64)>,
}

} // verus!
