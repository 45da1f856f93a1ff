//! Loaded and unloaded module maps: interval lookup from instruction
//! addresses to the modules that cover them.

use vstd::prelude::*;
use crate::text::clone_string;

verus! {

/// A loaded module of the crashed process.
pub struct Module {
    pub name: String,
    pub base_of_image: u64,
    pub size_of_image: u64,
}

/// A module that had been unloaded before the dump was written. Unloaded
/// ranges may overlap each other and loaded ranges.
pub struct UnloadedModule {
    pub name: String,
    pub base_of_image: u64,
    pub size_of_image: u64,
}

pub open spec fn spec_module_contains(m: Module, addr: u64) -> bool {
    m.base_of_image <= addr && addr - m.base_of_image < m.size_of_image
}

pub open spec fn spec_unloaded_contains(m: UnloadedModule, addr: u64) -> bool {
    m.base_of_image <= addr && addr - m.base_of_image < m.size_of_image
}

/// Same name and same address range.
pub open spec fn spec_module_like(a: Module, b: Module) -> bool {
    a.name@ == b.name@ && a.base_of_image == b.base_of_image && a.size_of_image == b.size_of_image
}

pub fn clone_module(m: &Module) -> (r: Module)
    ensures
        spec_module_like(r, *m),
{
    Module {
        name: clone_string(&m.name),
        base_of_image: m.base_of_image,
        size_of_image: m.size_of_image,
    }
}

/// The loaded modules, in the order the dump lists them.
pub struct ModuleList {
    pub modules: Vec<Module>,
}

/// The unloaded modules, in the order the dump lists them.
pub struct UnloadedModuleList {
    pub modules: Vec<UnloadedModule>,
}

/// Index of the first module whose interval contains `addr`.
pub open spec fn spec_module_index_at(ms: Seq<Module>, addr: u64) -> Option<int>
    decreases ms.len(),
{
    if ms.len() == 0 {
        None
    } else if spec_module_contains(ms[0], addr) {
        Some(0int)
    } else {
        match spec_module_index_at(ms.drop_first(), addr) {
            Option::None => None,
            Option::Some(i) => Some(i + 1),
        }
    }
}

pub proof fn lemma_module_index_at_found(ms: Seq<Module>, addr: u64, i: int)
    requires
        0 <= i < ms.len(),
        forall|j: int| 0 <= j < i ==> !spec_module_contains(ms[j], addr),
        spec_module_contains(ms[i], addr),
    ensures
        spec_module_index_at(ms, addr) == Some(i),
    decreases i,
{
    if i > 0 {
        lemma_module_index_at_found(ms.drop_first(), addr, i - 1);
    }
}

pub proof fn lemma_module_index_at_none(ms: Seq<Module>, addr: u64)
    requires
        forall|j: int| 0 <= j < ms.len() ==> !spec_module_contains(ms[j], addr),
    ensures
        spec_module_index_at(ms, addr) is None,
    decreases ms.len(),
{
    if ms.len() > 0 {
        lemma_module_index_at_none(ms.drop_first(), addr);
    }
}

/// Same names and same address ranges, element for element.
pub open spec fn spec_module_list_like(a: Seq<Module>, b: Seq<Module>) -> bool {
    a.len() == b.len() && forall|i: int| 0 <= i < a.len() ==> spec_module_like(
        #[trigger] a[i],
        b[i],
    )
}

pub open spec fn spec_unloaded_like(a: UnloadedModule, b: UnloadedModule) -> bool {
    a.name@ == b.name@ && a.base_of_image == b.base_of_image && a.size_of_image == b.size_of_image
}

pub open spec fn spec_unloaded_list_like(a: Seq<UnloadedModule>, b: Seq<UnloadedModule>) -> bool {
    a.len() == b.len() && forall|i: int| 0 <= i < a.len() ==> spec_unloaded_like(
        #[trigger] a[i],
        b[i],
    )
}

/// An owned copy of the loaded module map.
pub fn clone_module_list(list: &ModuleList) -> (r: ModuleList)
    ensures
        spec_module_list_like(r.modules@, list.modules@),
{
    let n = list.modules.len();
    let mut modules: Vec<Module> = Vec::new();
    let mut i: usize = 0;
    while i < n
        invariant
            i <= n,
            n == list.modules@.len(),
            modules@.len() == i,
            forall|j: int| 0 <= j < i ==> spec_module_like(#[trigger] modules@[j], list.modules@[j]),
        decreases n - i,
    {
        modules.push(clone_module(&list.modules[i]));
        i = i + 1;
    }
    ModuleList { modules }
}

/// An owned copy of the unloaded module map.
pub fn clone_unloaded_module_list(list: &UnloadedModuleList) -> (r: UnloadedModuleList)
    ensures
        spec_unloaded_list_like(r.modules@, list.modules@),
{
    let n = list.modules.len();
    let mut modules: Vec<UnloadedModule> = Vec::new();
    let mut i: usize = 0;
    while i < n
        invariant
            i <= n,
            n == list.modules@.len(),
            modules@.len() == i,
            forall|j: int|
                0 <= j < i ==> spec_unloaded_like(#[trigger] modules@[j], list.modules@[j]),
        decreases n - i,
    {
        let m = &list.modules[i];
        modules.push(
            UnloadedModule {
                name: clone_string(&m.name),
                base_of_image: m.base_of_image,
                size_of_image: m.size_of_image,
            },
        );
        i = i + 1;
    }
    UnloadedModuleList { modules }
}

impl ModuleList {
    /// An empty module map, used when the dump carries no module stream.
    pub fn new() -> (r: ModuleList)
        ensures
            r.modules@.len() == 0,
    {
        ModuleList { modules: Vec::new() }
    }

    /// Find the first module whose interval contains `addr`.
    pub fn module_index_at(&self, addr: u64) -> (r: Option<usize>)
        ensures
            match r {
                Some(i) => i < self.modules@.len() && spec_module_index_at(self.modules@, addr)
                    == Some(i as int),
                None => spec_module_index_at(self.modules@, addr) is None,
            },
    {
        let n = self.modules.len();
        let mut i: usize = 0;
        while i < n
            invariant
                i <= n,
                n == self.modules@.len(),
                forall|j: int| 0 <= j < i ==> !spec_module_contains(self.modules@[j], addr),
            decreases n - i,
        {
            let m = &self.modules[i];
            if m.base_of_image <= addr && addr - m.base_of_image < m.size_of_image {
                proof {
                    lemma_module_index_at_found(self.modules@, addr, i as int);
                }
                return Some(i);
            }
            i = i + 1;
        }
        proof {
            lemma_module_index_at_none(self.modules@, addr);
        }
        None
    }
}

} // verus!
