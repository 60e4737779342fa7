//! The bookkeeping of one virtqueue.

use vstd::prelude::*;

use crate::vstate::memory::GuestMemory;

verus! {

/// Bytes of one entry of a descriptor table.
pub const DESCRIPTOR_SIZE: u64 = 16;

/// Where a virtqueue lies in guest memory and how far it has been served.
#[derive(Clone, Copy, Debug, PartialEq, Eq, Structural)]
pub struct Queue {
    /// Largest size that the device offers.
    pub max_size: u16,
    /// Size that the driver has chosen.
    pub size: u16,
    /// Whether the driver has marked the queue ready.
    pub ready: bool,
    /// Guest-physical address of the descriptor table.
    pub desc_table: u64,
    /// Guest-physical address of the available ring.
    pub avail_ring: u64,
    /// Guest-physical address of the used ring.
    pub used_ring: u64,
    /// Next entry of the available ring that the device will take.
    pub next_avail: u16,
    /// Next entry of the used ring that the device will fill.
    pub next_used: u16,
}

impl Queue {
    /// Bytes that the descriptor table takes.
    pub open spec fn desc_table_len(&self) -> u64 {
        (DESCRIPTOR_SIZE * self.size) as u64
    }

    /// Bytes that the available ring takes.
    pub open spec fn avail_ring_len(&self) -> u64 {
        (6 + 2 * self.size) as u64
    }

    /// Bytes that the used ring takes.
    pub open spec fn used_ring_len(&self) -> u64 {
        (6 + 8 * self.size) as u64
    }

    /// Whether the device can serve this queue in `mem`: it is ready, its size is a power
    /// of two within the offered size, and its three parts are aligned and lie in memory.
    pub open spec fn valid_in(&self, mem: &GuestMemory) -> bool {
        &&& self.ready
        &&& 0 < self.size <= self.max_size
        &&& self.size & ((self.size - 1) as u16) == 0
        &&& self.desc_table & 0xf == 0
        &&& self.avail_ring & 0x1 == 0
        &&& self.used_ring & 0x3 == 0
        &&& mem.contains_range(self.desc_table, self.desc_table_len())
        &&& mem.contains_range(self.avail_ring, self.avail_ring_len())
        &&& mem.contains_range(self.used_ring, self.used_ring_len())
    }

    /// An unconfigured queue that offers `max_size` entries.
    pub open spec fn unconfigured(max_size: u16) -> Queue {
        Queue {
            max_size,
            size: max_size,
            ready: false,
            desc_table: 0,
            avail_ring: 0,
            used_ring: 0,
            next_avail: 0,
            next_used: 0,
        }
    }

    /// An unconfigured queue that offers `max_size` entries.
    pub fn new(max_size: u16) -> (q: Self)
        ensures
            q == Self::unconfigured(max_size),
    {
        Queue {
            max_size,
            size: max_size,
            ready: false,
            desc_table: 0,
            avail_ring: 0,
            used_ring: 0,
            next_avail: 0,
            next_used: 0,
        }
    }

    /// Tells whether the device can serve this queue in `mem`.
    pub fn is_valid(&self, mem: &GuestMemory) -> (r: bool)
        ensures
            r == self.valid_in(mem),
    {
        if !self.ready || self.size == 0 || self.size > self.max_size {
            return false;
        }
        if self.size & (self.size - 1) != 0 {
            return false;
        }
        if self.desc_table & 0xf != 0 || self.avail_ring & 0x1 != 0 || self.used_ring & 0x3 != 0 {
            return false;
        }
        let size: u64 = self.size as u64;
        mem.check_range(self.desc_table, DESCRIPTOR_SIZE * size) && mem.check_range(
            self.avail_ring,
            6 + 2 * size,
        ) && mem.check_range(self.used_ring, 6 + 8 * size)
    }
}

/// Whether every queue of `queues` can be served in `mem`.
pub open spec fn all_valid_in(queues: Seq<Queue>, mem: &GuestMemory) -> bool {
    forall|i: int| 0 <= i < queues.len() ==> (#[trigger] queues[i]).valid_in(mem)
}

/// Tells whether every queue of `queues` can be served in `mem`.
pub fn queues_valid(queues: &Vec<Queue>, mem: &GuestMemory) -> (r: bool)
    ensures
        r == all_valid_in(queues@, mem),
{
    let mut i: usize = 0;
    while i < queues.len()
        invariant
            0 <= i <= queues.len(),
            forall|j: int| 0 <= j < i ==> (#[trigger] queues[j]).valid_in(mem),
        decreases queues.len() - i,
    {
        if !queues[i].is_valid(mem) {
            return false;
        }
        i += 1;
    }
    true
}

/// A copy of `queues`.
pub fn copy_queues(queues: &Vec<Queue>) -> (r: Vec<Queue>)
    ensures
        r@ == queues@,
{
    let mut r: Vec<Queue> = Vec::new();
    let mut i: usize = 0;
    while i < queues.len()
        invariant
            0 <= i <= queues.len(),
            r@ == queues@.take(i as int),
        decreases queues.len() - i,
    {
        r.push(queues[i]);
        proof {
            assert(queues@.take(i + 1) == queues@.take(i as int).push(queues@[i as int]));
        }
        i += 1;
    }
    proof {
        assert(queues@.take(queues.len() as int) == queues@);
    }
    r
}

} // verus!
