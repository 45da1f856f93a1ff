//! Crash-dump stack walking: given a post-mortem process snapshot's streams
//! and a source of debug symbols, reconstruct a call stack for every
//! thread, attribute frames to loaded and unloaded modules, and assemble an
//! aggregate crash report.
//!
//! The register files, the unwind strategies (CFI, frame-pointer chains,
//! heuristic scanning), the per-thread walk and the orchestration are all
//! verified; the symbol provider is the one trusted seam, stated in
//! [`symbols::SymbolProvider`].

pub mod cfi;
pub mod context;
pub mod memory;
pub mod modules;
pub mod process_state;
pub mod processor;
pub mod stackwalker;
pub mod symbols;
pub mod text;

pub use processor::{
    process_minidump, process_minidump_with_options, ProcessError, ProcessorOptions,
};
pub use stackwalker::walk_stack;
