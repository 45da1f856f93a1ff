//! The symbol-provider seam. The provider supplies debug symbols on demand
//! and evaluates CFI records; it is implemented outside this library (it may
//! read symbol files), so its lookup contract is the one assumption the
//! walker builds on.

use vstd::prelude::*;
use crate::cfi::CfiStackWalker;
use crate::modules::Module;

verus! {

/// Abstract answer of one symbol lookup.
pub struct SymbolInfoV {
    pub name: Seq<char>,
    pub base: u64,
    pub parameter_size: u32,
    pub file: Option<Seq<char>>,
    pub line: Option<u32>,
    pub line_base: Option<u64>,
}

pub enum SymLookupV {
    /// The provider has no symbol file for the module at all.
    NoSymbols,
    /// Symbols exist, but the address matches no function record.
    NotFound,
    /// The address matched a function record.
    Found(SymbolInfoV),
}

/// A function record returned by the provider.
pub struct SymbolInfo {
    pub function_name: String,
    pub function_base: u64,
    pub parameter_size: u32,
    pub source_file: Option<String>,
    pub source_line: Option<u32>,
    pub source_line_base: Option<u64>,
}

impl View for SymbolInfo {
    type V = SymbolInfoV;

    open spec fn view(&self) -> SymbolInfoV {
        SymbolInfoV {
            name: self.function_name@,
            base: self.function_base,
            parameter_size: self.parameter_size,
            file: match self.source_file {
                Option::Some(ref s) => Some(s@),
                Option::None => None,
            },
            line: self.source_line,
            line_base: self.source_line_base,
        }
    }
}

/// Concrete answer of one symbol lookup.
pub enum SymLookup {
    NoSymbols,
    NotFound,
    Found(SymbolInfo),
}

impl View for SymLookup {
    type V = SymLookupV;

    open spec fn view(&self) -> SymLookupV {
        match self {
            SymLookup::NoSymbols => SymLookupV::NoSymbols,
            SymLookup::NotFound => SymLookupV::NotFound,
            SymLookup::Found(info) => SymLookupV::Found(info@),
        }
    }
}

/// A source of debug symbols and CFI evaluation. Implementations live with
/// the caller (they may perform I/O and caching); the library states here
/// what it relies on of them.
pub trait SymbolProvider {
    /// The provider's model: the answer a symbol lookup gives for an
    /// instruction address inside a module. Two lookups of the same address
    /// against the same module answer alike.
    spec fn spec_lookup(&self, module_name: Seq<char>, module_base: u64, instruction: u64)
        -> SymLookupV;

    /// Look `instruction` up in the module's symbols. Trusted at this seam:
    /// an implementation must answer as its own `spec_lookup` model says,
    /// distinguishing "no symbols for the module" from "address not found".
    fn fill_symbol(&self, module: &Module, instruction: u64) -> (r: SymLookup)
        ensures
            r@ == self.spec_lookup(module.name@, module.base_of_image, instruction),
    ;

    /// Evaluate the module's CFI rules for the walker's callee frame,
    /// driving the walker's capability methods. Returns whether any rule
    /// applied. Nothing is assumed of the outcome: the unwinder re-validates
    /// everything the walker holds afterwards.
    fn walk_frame(&self, module: &Module, walker: &mut CfiStackWalker) -> (r: bool);

    /// Per-module symbol statistics, keyed by module name.
    fn stats(&self) -> Vec<(String, u64)>;
}

/// A provider with no symbols for any module: every lookup answers
/// `NoSymbols` and no CFI rule ever applies.
pub struct EmptySymbolProvider {}

impl SymbolProvider for EmptySymbolProvider {
    open spec fn spec_lookup(&self, module_name: Seq<char>, module_base: u64, instruction: u64)
        -> SymLookupV {
        SymLookupV::NoSymbols
    }

    fn fill_symbol(&self, module: &Module, instruction: u64) -> (r: SymLookup) {
        SymLookup::NoSymbols
    }

    fn walk_frame(&self, module: &Module, walker: &mut CfiStackWalker) -> (r: bool) {
        false
    }

    fn stats(&self) -> (r: Vec<(String, u64)>) {
        Vec::new()
    }
}

} // verus!
