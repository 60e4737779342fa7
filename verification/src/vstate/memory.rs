//! The layout of guest memory, as far as devices need to know it.

use vstd::prelude::*;

verus! {

/// One contiguous piece of guest memory.
#[derive(Clone, Copy, Debug, PartialEq, Eq, Structural)]
pub struct MemoryRegion {
    /// First guest-physical address of the region.
    pub start: u64,
    /// Number of bytes in the region.
    pub len: u64,
}

impl MemoryRegion {
    /// Whether the `len` bytes from `addr` on lie inside this region.
    pub open spec fn holds(&self, addr: u64, len: u64) -> bool {
        self.start <= addr && addr + len <= self.start + self.len
    }
}

/// The regions of guest memory.
#[derive(Debug)]
pub struct GuestMemory {
    /// The regions, in no particular order.
    pub regions: Vec<MemoryRegion>,
}

impl GuestMemory {
    /// Whether the `len` bytes from `addr` on lie inside one region of this memory.
    pub open spec fn contains_range(&self, addr: u64, len: u64) -> bool {
        exists|i: int| 0 <= i < self.regions.len() && (#[trigger] self.regions[i]).holds(addr, len)
    }

    /// A memory of the given regions.
    pub fn new(regions: Vec<MemoryRegion>) -> (mem: Self)
        ensures
            mem.regions == regions,
    {
        GuestMemory { regions }
    }

    /// Tells whether the `len` bytes from `addr` on lie inside one region.
    pub fn check_range(&self, addr: u64, len: u64) -> (r: bool)
        ensures
            r == self.contains_range(addr, len),
    {
        let mut i: usize = 0;
        while i < self.regions.len()
            invariant
                0 <= i <= self.regions.len(),
                forall|j: int| 0 <= j < i ==> !(#[trigger] self.regions[j]).holds(addr, len),
            decreases self.regions.len() - i,
        {
            let region = self.regions[i];
            if region.start <= addr && len <= region.len && addr - region.start <= region.len
                - len {
                return true;
            }
            i += 1;
        }
        false
    }

    /// A copy of this layout.
    pub fn duplicate(&self) -> (mem: Self)
        ensures
            mem.regions@ == self.regions@,
    {
        let mut regions: Vec<MemoryRegion> = Vec::new();
        let mut i: usize = 0;
        while i < self.regions.len()
            invariant
                0 <= i <= self.regions.len(),
                regions@ == self.regions@.take(i as int),
            decreases self.regions.len() - i,
        {
            regions.push(self.regions[i]);
            proof {
                assert(self.regions@.take(i + 1) == self.regions@.take(i as int).push(
                    self.regions@[i as int],
                ));
            }
            i += 1;
        }
        proof {
            assert(self.regions@.take(self.regions.len() as int) == self.regions@);
        }
        GuestMemory { regions }
    }
}

} // verus!
