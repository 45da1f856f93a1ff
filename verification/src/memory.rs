//! Stack memory: a read-only view of a contiguous region of the crashed
//! process's address space, with little-endian register-sized reads.

use vstd::prelude::*;

verus! {

/// 256 to the n-th power; the number of values of an n-byte word.
pub open spec fn pow256(n: nat) -> nat
    decreases n,
{
    if n == 0 {
        1
    } else {
        256 * pow256((n - 1) as nat)
    }
}

pub proof fn lemma_pow256_mono(a: nat, b: nat)
    requires
        a <= b,
    ensures
        pow256(a) <= pow256(b),
    decreases b,
{
    if a < b {
        lemma_pow256_mono(a, (b - 1) as nat);
        assert(pow256(b) == 256 * pow256((b - 1) as nat));
    }
}

/// The value of a byte sequence read as a little-endian integer.
pub open spec fn spec_le_bytes(s: Seq<u8>) -> nat
    decreases s.len(),
{
    if s.len() == 0 {
        0
    } else {
        (s[0] + 256 * spec_le_bytes(s.drop_first())) as nat
    }
}

/// A contiguous span of memory saved in the dump, addressed from
/// `base_address`.
pub struct StackMemory {
    pub base_address: u64,
    pub bytes: Vec<u8>,
}

pub open spec fn spec_region_contains(m: StackMemory, addr: u64) -> bool {
    m.base_address <= addr && addr - m.base_address < m.bytes@.len()
}

/// Index of the first saved region that contains `addr`.
pub open spec fn spec_region_index_at(rs: Seq<StackMemory>, addr: u64) -> Option<int>
    decreases rs.len(),
{
    if rs.len() == 0 {
        None
    } else if spec_region_contains(rs[0], addr) {
        Some(0int)
    } else {
        match spec_region_index_at(rs.drop_first(), addr) {
            Option::None => None,
            Option::Some(i) => Some(i + 1),
        }
    }
}

pub proof fn lemma_region_index_at_found(rs: Seq<StackMemory>, addr: u64, i: int)
    requires
        0 <= i < rs.len(),
        forall|j: int| 0 <= j < i ==> !spec_region_contains(rs[j], addr),
        spec_region_contains(rs[i], addr),
    ensures
        spec_region_index_at(rs, addr) == Some(i),
    decreases i,
{
    if i > 0 {
        lemma_region_index_at_found(rs.drop_first(), addr, i - 1);
    }
}

pub proof fn lemma_region_index_at_none(rs: Seq<StackMemory>, addr: u64)
    requires
        forall|j: int| 0 <= j < rs.len() ==> !spec_region_contains(rs[j], addr),
    ensures
        spec_region_index_at(rs, addr) is None,
    decreases rs.len(),
{
    if rs.len() > 0 {
        lemma_region_index_at_none(rs.drop_first(), addr);
    }
}

/// Find the first saved region containing `addr`; how a thread's stack
/// memory is located from its stack base.
pub fn region_index_at(regions: &Vec<StackMemory>, addr: u64) -> (r: Option<usize>)
    ensures
        match r {
            Some(i) => i < regions@.len() && spec_region_index_at(regions@, addr) == Some(
                i as int,
            ),
            None => spec_region_index_at(regions@, addr) is None,
        },
{
    let n = regions.len();
    let mut i: usize = 0;
    while i < n
        invariant
            i <= n,
            n == regions@.len(),
            forall|j: int| 0 <= j < i ==> !spec_region_contains(regions@[j], addr),
        decreases n - i,
    {
        let m = &regions[i];
        if m.base_address <= addr && addr - m.base_address < m.bytes.len() as u64 {
            proof {
                lemma_region_index_at_found(regions@, addr, i as int);
            }
            return Some(i);
        }
        i = i + 1;
    }
    proof {
        lemma_region_index_at_none(regions@, addr);
    }
    None
}

impl StackMemory {
    /// `size` bytes starting at `addr` lie inside the region.
    pub open spec fn spec_in_range(self, addr: u64, size: nat) -> bool {
        self.base_address <= addr && addr - self.base_address + size <= self.bytes@.len()
    }

    /// The little-endian value of the `size` bytes at `addr`.
    pub open spec fn spec_read_word(self, addr: u64, size: nat) -> nat {
        spec_le_bytes(
            self.bytes@.subrange(
                addr - self.base_address,
                addr - self.base_address + size,
            ),
        )
    }

    /// Read a register-sized little-endian word from saved memory; `None`
    /// when any of its bytes falls outside the region.
    pub fn read_word(&self, addr: u64, size: usize) -> (r: Option<u64>)
        requires
            size == 4 || size == 8,
        ensures
            match r {
                Some(v) => self.spec_in_range(addr, size as nat) && v == self.spec_read_word(
                    addr,
                    size as nat,
                ),
                None => !self.spec_in_range(addr, size as nat),
            },
    {
        if addr < self.base_address {
            return None;
        }
        let off64: u64 = addr - self.base_address;
        let len64: u64 = self.bytes.len() as u64;
        if off64 > len64 || (size as u64) > len64 - off64 {
            return None;
        }
        let off: usize = off64 as usize;
        proof {
            assert(off + size <= self.bytes.len());
        }
        let ghost lo: int = off as int;
        let ghost hi: int = off as int + size as int;
        let mut v: u64 = 0;
        let mut i: usize = size;
        while i > 0
            invariant
                i <= size,
                size == 4 || size == 8,
                off + size <= self.bytes@.len(),
                self.bytes@.len() <= usize::MAX,
                lo == off as int,
                hi == off as int + size as int,
                v == spec_le_bytes(self.bytes@.subrange(lo + i, hi)),
                v < pow256((size - i) as nat),
            decreases i,
        {
            i = i - 1;
            let b = self.bytes[off + i];
            proof {
                lemma_pow256_mono((size - i - 1) as nat, 7);
                reveal_with_fuel(pow256, 9);
                assert(pow256(7) == 0x100000000000000);
                assert(self.bytes@.subrange(lo + i, hi).drop_first() =~= self.bytes@.subrange(
                    lo + i + 1,
                    hi,
                ));
                assert(self.bytes@.subrange(lo + i, hi)[0] == self.bytes@[lo + i]);
            }
            v = v * 256 + b as u64;
        }
        proof {
            assert(self.bytes@.subrange(lo, hi) =~= self.bytes@.subrange(lo + 0, hi));
        }
        Some(v)
    }
}

} // verus!
