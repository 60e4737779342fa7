//! The registry of devices behind functions on the PCI bus.

use vstd::prelude::*;

use crate::device_manager::persist::{
    fresh_device, kind_checked, kind_inactive, kind_saved, quiesced, rebuild_balloon,
    rebuild_block, rebuild_entropy, rebuild_net, rebuild_vsock, DevicePersistError, KindState,
    MmdsState,
};
use crate::devices::virtio::balloon::{BalloonState, BalloonStateView};
use crate::devices::virtio::block::{BlockState, BlockStateView};
use crate::devices::virtio::net::{NetState, NetStateView};
use crate::devices::virtio::rng::{EntropyState, EntropyStateView};
use crate::devices::virtio::persist::VirtioDeviceStateView;
use crate::devices::virtio::queue::all_valid_in;
use crate::devices::virtio::vsock::{VsockState, VsockStateView};
use crate::devices::virtio::ActivateError;
use crate::event_manager::EventManager;
use crate::mmds::Mmds;
use crate::resources::{VmResources, VmResourcesView};
use crate::vstate::memory::GuestMemory;
use crate::devices::pci::{
    bdf_device, spec_bdf, spec_bdf_device, PciRootError, PciSegment, NUM_DEVICE_IDS,
};
use crate::devices::virtio::device::VirtioDevice;
use crate::devices::virtio::pci_transport::{
    notification_actions, untouched_config, MsiVectorGroup, VirtioPciDevice, VirtioPciDeviceState,
    VirtioPciDeviceStateView, CAPABILITY_BAR_SIZE,
};
use crate::vstate::bus::{overlaps_any, range_valid, regions_overlap, BusError};
use crate::vstate::resources::{
    address_allocation, address_fits, address_placed, address_serves, id_allocated, id_run,
    id_run_free, place_in, serves_from, AllocPolicy,
};
use crate::vstate::vm::{HostAction, Vm};

verus! {

/// Why a device could not be put on the PCI bus, or the devices of a snapshot could not be
/// restored there.
#[derive(Debug)]
pub enum PciManagerError {
    /// No interrupt line or no address range is left.
    ResourceAllocation(vm_allocator::Error),
    /// The bus of memory-mapped registers did not take the BAR.
    Bus(BusError),
    /// No device slot could be had.
    PciRoot(PciRootError),
    /// A saved device could not be rebuilt.
    DeviceRestore(DevicePersistError),
}

/// One entry of the registry: a device under its type tag and identifier.
#[derive(Debug)]
pub struct PciEntry {
    /// Device type tag.
    pub device_type: u32,
    /// Identifier, unique among the devices of its type.
    pub device_id: String,
    /// The device behind its transport.
    pub device: VirtioPciDevice,
}

/// The registry of PCI devices. It owns them, in the order in which they were attached.
#[derive(Debug)]
pub struct PciDevices {
    /// The PCI segment of the machine, once PCI is enabled. There is at most one.
    pub pci_segment: Option<PciSegment>,
    /// The virtio devices.
    pub virtio_devices: Vec<PciEntry>,
}

/// Index of the entry of `entries` with the given type and identifier, if there is one.
pub open spec fn pci_position_of(entries: Seq<PciEntry>, device_type: u32, device_id: Seq<char>) -> Option<
    int,
> {
    if exists|i: int|
        0 <= i < entries.len() && (#[trigger] entries[i]).device_type == device_type
            && entries[i].device_id@ == device_id {
        Some(
            choose|i: int|
                0 <= i < entries.len() && (#[trigger] entries[i]).device_type == device_type
                    && entries[i].device_id@ == device_id,
        )
    } else {
        None
    }
}

/// `entries` with `entry` in the place of the entry of the same type and identifier, or
/// behind all entries if there is none.
pub open spec fn pci_upsert(entries: Seq<PciEntry>, entry: PciEntry) -> Seq<PciEntry> {
    match pci_position_of(entries, entry.device_type, entry.device_id@) {
        Some(i) => entries.update(i, entry),
        None => entries.push(entry),
    }
}

/// The handle under which the device with the given type and identifier is put on the
/// bus of memory-mapped registers: its place in the registry.
pub open spec fn pci_handle_of(entries: Seq<PciEntry>, device_type: u32, device_id: Seq<char>) -> u64 {
    match pci_position_of(entries, device_type, device_id) {
        Some(i) => i as u64,
        None => entries.len() as u64,
    }
}

/// Whether no two entries of `entries` have the same type and identifier.
pub open spec fn pci_keys_distinct(entries: Seq<PciEntry>) -> bool {
    forall|i: int, j: int|
        0 <= i < j < entries.len() ==> !((#[trigger] entries[i]).device_type == (
        #[trigger] entries[j]).device_type && entries[i].device_id@ == entries[j].device_id@)
}

/// Whether the BARs of `entries` are valid ranges that do not overlap.
pub open spec fn bars_disjoint(entries: Seq<PciEntry>) -> bool {
    &&& forall|i: int|
        0 <= i < entries.len() ==> range_valid(
            (#[trigger] entries[i]).device.bar_address,
            CAPABILITY_BAR_SIZE,
        )
    &&& forall|i: int, j: int|
        0 <= i < j < entries.len() ==> !regions_overlap(
            (#[trigger] entries[i]).device.bar_address,
            CAPABILITY_BAR_SIZE,
            (#[trigger] entries[j]).device.bar_address,
            CAPABILITY_BAR_SIZE,
        )
}

/// The device slot of the entry `e`.
pub open spec fn slot_of(e: PciEntry) -> int {
    spec_bdf_device(e.device.pci_device_bdf) as int
}

/// Whether the entries of `entries` sit in different slots, all of them taken in `slots`.
pub open spec fn slots_distinct(entries: Seq<PciEntry>, slots: Seq<bool>) -> bool {
    &&& forall|i: int|
        0 <= i < entries.len() ==> 0 <= slot_of(#[trigger] entries[i]) < slots.len() && slots[slot_of(
            entries[i],
        )]
    &&& forall|i: int, j: int|
        0 <= i < j < entries.len() ==> slot_of(#[trigger] entries[i]) != slot_of(
            #[trigger] entries[j],
        )
}

/// What attaching `device` under `device_id` does when it succeeds: `entry` is the new
/// entry of the registry. The device has the first free slot of the bus, the smallest
/// free interrupt lines for its queues and one more, and a BAR from the 64-bit window
/// that was free on the bus of memory-mapped registers; the host is asked to wake it when
/// the guest notifies a queue.
pub open spec fn pci_attached(
    pre: (PciDevices, Vm),
    post: (PciDevices, Vm),
    device_id: String,
    device: VirtioDevice,
    entry: PciEntry,
) -> bool {
    let queues = device.spec_base().queues.len() as int;
    let slot = slot_of(entry);
    &&& entry.device_type == device.spec_device_type()
    &&& entry.device_id == device_id
    &&& entry.device.id == device_id
    &&& entry.device.device == device
    &&& !entry.device.device_activated
    &&& entry.device.common_config == untouched_config()
    &&& pre.0.pci_segment->0.pci_bus.first_free(slot)
    &&& entry.device.pci_device_bdf == spec_bdf(pre.0.pci_segment->0.id, slot as u8)
    &&& post.0.pci_segment is Some
    &&& post.0.pci_segment->0.id == pre.0.pci_segment->0.id
    &&& post.0.pci_segment->0.pci_bus.device_ids@
        == pre.0.pci_segment->0.pci_bus.device_ids@.update(slot, true)
    &&& entry.device.msix_vectors.vectors.len() == queues + 1
    &&& forall|k: int|
        0 <= k <= queues ==> #[trigger] entry.device.msix_vectors.vectors[k]
            == entry.device.msix_vectors.vectors[0] + k
    &&& id_run_free(
        pre.1.resource_allocator.gsi_msi_allocator,
        entry.device.msix_vectors.vectors[0] as int,
        queues + 1,
    )
    &&& id_allocated(post.1.resource_allocator.gsi_msi_allocator) == id_allocated(
        pre.1.resource_allocator.gsi_msi_allocator,
    ).union(id_run(entry.device.msix_vectors.vectors[0] as int, queues + 1))
    &&& address_allocation(
        pre.1.resource_allocator.mmio64_memory,
        post.1.resource_allocator.mmio64_memory,
        CAPABILITY_BAR_SIZE,
        CAPABILITY_BAR_SIZE,
        AllocPolicy::FirstMatch,
        Ok(entry.device.bar_address),
    )
    &&& !overlaps_any(pre.1.mmio_bus.ranges(), entry.device.bar_address, CAPABILITY_BAR_SIZE)
    &&& post.1.mmio_bus.ranges() == pre.1.mmio_bus.ranges().insert(
        entry.device.bar_address,
        (
            CAPABILITY_BAR_SIZE,
            pci_handle_of(pre.0.virtio_devices@, entry.device_type, device_id@),
        ),
    )
    &&& post.0.virtio_devices@ == pci_upsert(pre.0.virtio_devices@, entry)
    &&& post.1.actions@ == pre.1.actions@ + notification_actions(
        entry.device.bar_address,
        queues as nat,
    )
}

/// Whether the BAR that the allocator of `vm` hands out next is free on the bus of `vm`.
pub open spec fn next_bar_free(vm: Vm) -> bool {
    forall|node: (u64, u64)| #[trigger]
        serves_from(
            vm.resource_allocator.mmio64_memory,
            node,
            CAPABILITY_BAR_SIZE,
            CAPABILITY_BAR_SIZE,
            AllocPolicy::FirstMatch,
        ) ==> !overlaps_any(
            vm.mmio_bus.ranges(),
            place_in(node, CAPABILITY_BAR_SIZE, CAPABILITY_BAR_SIZE, AllocPolicy::FirstMatch)->0 as u64,
            CAPABILITY_BAR_SIZE,
        )
}

/// Whether `vm` has `vectors` interrupt lines left in one run. A device needs one for each
/// queue and one for its configuration.
pub open spec fn pci_lines_left(vm: Vm, vectors: int) -> bool {
    exists|first: int| id_run_free(vm.resource_allocator.gsi_msi_allocator, first, vectors)
}

/// Whether a BAR fits in the 64-bit window of `vm`.
pub open spec fn bar_fits(vm: Vm) -> bool {
    address_fits(
        vm.resource_allocator.mmio64_memory,
        CAPABILITY_BAR_SIZE,
        CAPABILITY_BAR_SIZE,
        AllocPolicy::FirstMatch,
    )
}

/// Whether a device that needs `vectors` interrupt lines is sure to be attached to the
/// registry `devices` on the machine `vm`: a slot is free, the interrupt lines are left,
/// the allocator is sure to serve the BAR, and the BAR is free on the bus.
pub open spec fn pci_can_attach(devices: PciDevices, vm: Vm, vectors: int) -> bool {
    &&& !devices.pci_segment->0.pci_bus.full()
    &&& pci_lines_left(vm, vectors)
    &&& address_serves(
        vm.resource_allocator.mmio64_memory,
        CAPABILITY_BAR_SIZE,
        CAPABILITY_BAR_SIZE,
        AllocPolicy::FirstMatch,
    )
    &&& next_bar_free(vm)
}

/// What attaching `device` under `id` does to a registry, on which PCI is enabled, and a
/// machine: on success what [`pci_attached`] says of the new entry; whatever fails, the
/// registry, the bus of memory-mapped registers and the requests to the host are as they
/// were.
///
/// The call succeeds where [`pci_can_attach`] holds, and only where a slot is free, the
/// lines are left, the BAR fits and is free on the bus. Each error comes with the first
/// thing that was missing: the root's without a free slot, the allocator's without the
/// lines or without a BAR, the bus's where the BAR handed out overlaps what is on the bus.
pub open spec fn pci_attach_outcome(
    pre: (PciDevices, Vm),
    post: (PciDevices, Vm),
    id: String,
    device: VirtioDevice,
    r: Result<(), PciManagerError>,
) -> bool {
    &&& post.0.wf()
    &&& post.0.on_bus(post.1.mmio_bus.ranges())
    &&& post.1.wf()
    &&& post.0.pci_segment is Some
    &&& post.1.guest_memory == pre.1.guest_memory
    &&& match r {
        Ok(()) => exists|entry: PciEntry| pci_attached(pre, post, id, device, entry),
        Err(err) => {
            &&& post.0.virtio_devices@ == pre.0.virtio_devices@
            &&& post.1.mmio_bus.ranges() == pre.1.mmio_bus.ranges()
            &&& post.1.actions@ == pre.1.actions@
            &&& match err {
                PciManagerError::PciRoot(err) => {
                    &&& err == PciRootError::NoPciDeviceSlotAvailable
                    &&& pre.0.pci_segment->0.pci_bus.full()
                    &&& post.0.pci_segment == pre.0.pci_segment
                    &&& post.1.resource_allocator == pre.1.resource_allocator
                },
                PciManagerError::ResourceAllocation(_) => {
                    &&& !pre.0.pci_segment->0.pci_bus.full()
                    &&& !pci_lines_left(pre.1, device.spec_base().queues.len() + 1)
                        || !address_serves(
                        pre.1.resource_allocator.mmio64_memory,
                        CAPABILITY_BAR_SIZE,
                        CAPABILITY_BAR_SIZE,
                        AllocPolicy::FirstMatch,
                    )
                },
                PciManagerError::Bus(err) => {
                    &&& err == BusError::Overlap
                    &&& !pre.0.pci_segment->0.pci_bus.full()
                    &&& pci_lines_left(pre.1, device.spec_base().queues.len() + 1)
                    &&& bar_fits(pre.1)
                    &&& !next_bar_free(pre.1)
                },
                PciManagerError::DeviceRestore(_) => false,
            }
        },
    }
    &&& pci_can_attach(pre.0, pre.1, device.spec_base().queues.len() + 1) ==> r is Ok
    &&& r is Ok ==> {
        &&& !pre.0.pci_segment->0.pci_bus.full()
        &&& pci_lines_left(pre.1, device.spec_base().queues.len() + 1)
        &&& bar_fits(pre.1)
        &&& next_bar_free(pre.1)
    }
    &&& !pre.0.pci_segment->0.pci_bus.full() && pci_lines_left(
        pre.1,
        device.spec_base().queues.len() + 1,
    ) && !bar_fits(pre.1) ==> r matches Err(PciManagerError::ResourceAllocation(_))
}

impl PciDevices {
    /// Whether the registry is consistent: devices only once PCI is enabled, every entry
    /// filed under the type of its device, no two entries with the same type and
    /// identifier, in the same slot, or with overlapping BARs.
    pub open spec fn wf(&self) -> bool {
        &&& self.pci_segment matches Some(segment) ==> segment.wf()
        &&& self.virtio_devices.len() > 0 ==> self.pci_segment is Some
        &&& pci_keys_distinct(self.virtio_devices@)
        &&& bars_disjoint(self.virtio_devices@)
        &&& self.pci_segment matches Some(segment) ==> slots_distinct(
            self.virtio_devices@,
            segment.pci_bus.device_ids@,
        )
        &&& forall|i: int|
            0 <= i < self.virtio_devices.len() ==> {
                &&& (#[trigger] self.virtio_devices[i]).device_type
                    == self.virtio_devices[i].device.device.spec_device_type()
                &&& self.virtio_devices[i].device.id@ == self.virtio_devices[i].device_id@
            }
    }

    /// Whether the BAR of every entry is on `ranges`.
    pub open spec fn on_bus(&self, ranges: Map<u64, (u64, u64)>) -> bool {
        forall|i: int|
            0 <= i < self.virtio_devices.len() ==> {
                &&& ranges.contains_key((#[trigger] self.virtio_devices[i]).device.bar_address)
                &&& ranges[self.virtio_devices[i].device.bar_address].0 == CAPABILITY_BAR_SIZE
            }
    }

    /// A range that is free on the bus can be put there without taking a device of the
    /// registry off it.
    pub proof fn lemma_stays_on_bus(
        &self,
        ranges: Map<u64, (u64, u64)>,
        base: u64,
        len: u64,
        handle: u64,
    )
        requires
            self.on_bus(ranges),
            !overlaps_any(ranges, base, len),
            range_valid(base, len),
            bars_disjoint(self.virtio_devices@),
        ensures
            self.on_bus(ranges.insert(base, (len, handle))),
    {
        assert forall|i: int| 0 <= i < self.virtio_devices.len() implies (
        #[trigger] self.virtio_devices[i]).device.bar_address != base by {
            let addr = self.virtio_devices[i].device.bar_address;
            assert(ranges.contains_key(addr));
            assert(!regions_overlap(base, len, addr, ranges[addr].0));
        }
    }

    /// A registry without devices, on which PCI is not enabled.
    pub fn new() -> (r: Self)
        ensures
            r.pci_segment is None,
            r.virtio_devices@ == Seq::<PciEntry>::empty(),
            r.wf(),
    {
        PciDevices { pci_segment: None, virtio_devices: Vec::new() }
    }

    /// Enables PCI: gives the machine its one PCI segment, number 0, with no device on its
    /// bus. This is done once.
    pub fn attach_pci_segment(&mut self, vm: &mut Vm) -> (r: Result<(), PciManagerError>)
        requires
            old(self).pci_segment is None,
        ensures
            r is Ok,
            *final(vm) == *old(vm),
            final(self).virtio_devices == old(self).virtio_devices,
            final(self).pci_segment matches Some(segment) && segment.wf() && segment.id == 0
                && forall|j: int| 1 <= j < segment.pci_bus.device_ids.len() ==> !#[trigger] segment.pci_bus.device_ids[j],
    {
        self.pci_segment = Some(PciSegment::new(0));
        Ok(())
    }

    /// Index of the device with the given type and identifier.
    pub fn position(&self, device_type: u32, device_id: &String) -> (r: Option<usize>)
        ensures
            match r {
                Some(i) => {
                    &&& i < self.virtio_devices.len()
                    &&& self.virtio_devices[i as int].device_type == device_type
                    &&& self.virtio_devices[i as int].device_id@ == device_id@
                },
                None => forall|j: int|
                    0 <= j < self.virtio_devices.len() ==> !((
                    #[trigger] self.virtio_devices[j]).device_type == device_type
                        && self.virtio_devices[j].device_id@ == device_id@),
            },
            pci_keys_distinct(self.virtio_devices@) ==> (match r {
                Some(i) => Some(i as int),
                None => None,
            }) == pci_position_of(self.virtio_devices@, device_type, device_id@),
    {
        let mut i: usize = 0;
        while i < self.virtio_devices.len()
            invariant
                0 <= i <= self.virtio_devices.len(),
                forall|j: int|
                    0 <= j < i ==> !((#[trigger] self.virtio_devices[j]).device_type == device_type
                        && self.virtio_devices[j].device_id@ == device_id@),
            decreases self.virtio_devices.len() - i,
        {
            if self.virtio_devices[i].device_type == device_type && self.virtio_devices[i].device_id
                == *device_id {
                proof {
                    if pci_keys_distinct(self.virtio_devices@) {
                        let found = pci_position_of(self.virtio_devices@, device_type, device_id@);
                        assert(found is Some);
                        let k = found->0;
                        if k > i {
                            assert(!(self.virtio_devices[i as int].device_type
                                == self.virtio_devices[k].device_type
                                && self.virtio_devices[i as int].device_id@
                                == self.virtio_devices[k].device_id@));
                        }
                    }
                }
                return Some(i);
            }
            i += 1;
        }
        None
    }

    /// The device with the given type and identifier, if it is in the registry.
    pub fn get_virtio_device(&self, device_type: u32, device_id: &str) -> (r: Option<
        &VirtioPciDevice,
    >)
        ensures
            match r {
                Some(dev) => exists|i: int|
                    0 <= i < self.virtio_devices.len() && (
                    #[trigger] self.virtio_devices[i]).device_type == device_type
                        && self.virtio_devices[i].device_id@ == device_id@
                        && self.virtio_devices[i].device == *dev,
                None => forall|j: int|
                    0 <= j < self.virtio_devices.len() ==> !((
                    #[trigger] self.virtio_devices[j]).device_type == device_type
                        && self.virtio_devices[j].device_id@ == device_id@),
            },
    {
        let id = String::from_str(device_id);
        match self.position(device_type, &id) {
            Some(i) => Some(&self.virtio_devices[i].device),
            None => None,
        }
    }

    /// Puts the BAR of `device` on the bus of memory-mapped registers of `vm`, under the
    /// handle `handle`.
    fn register_bars_with_bus(vm: &mut Vm, device: &VirtioPciDevice, handle: u64) -> (r: Result<
        (),
        PciManagerError,
    >)
        ensures
            final(vm).guest_memory == old(vm).guest_memory,
            final(vm).resource_allocator == old(vm).resource_allocator,
            final(vm).actions == old(vm).actions,
            match r {
                Ok(()) => {
                    &&& range_valid(device.bar_address, CAPABILITY_BAR_SIZE)
                    &&& !overlaps_any(
                        old(vm).mmio_bus.ranges(),
                        device.bar_address,
                        CAPABILITY_BAR_SIZE,
                    )
                    &&& final(vm).mmio_bus.ranges() == old(vm).mmio_bus.ranges().insert(
                        device.bar_address,
                        (CAPABILITY_BAR_SIZE, handle),
                    )
                },
                Err(PciManagerError::Bus(BusError::InvalidRange)) => {
                    &&& !range_valid(device.bar_address, CAPABILITY_BAR_SIZE)
                    &&& final(vm).mmio_bus.ranges() == old(vm).mmio_bus.ranges()
                },
                Err(PciManagerError::Bus(BusError::Overlap)) => {
                    &&& range_valid(device.bar_address, CAPABILITY_BAR_SIZE)
                    &&& overlaps_any(
                        old(vm).mmio_bus.ranges(),
                        device.bar_address,
                        CAPABILITY_BAR_SIZE,
                    )
                    &&& final(vm).mmio_bus.ranges() == old(vm).mmio_bus.ranges()
                },
                Err(_) => false,
            },
    {
        match vm.mmio_bus.insert(handle, device.bar_address, CAPABILITY_BAR_SIZE) {
            Ok(()) => Ok(()),
            Err(err) => Err(PciManagerError::Bus(err)),
        }
    }

    /// Attaches `device` under `id`: gives it a slot on the PCI bus, interrupt lines and a
    /// BAR, puts the BAR on the bus of memory-mapped registers and the device into the
    /// registry, and asks the host to wake it when the guest notifies a queue.
    ///
    /// PCI must be enabled. See [`pci_attach_outcome`] for when the call succeeds and what
    /// each error says. Whatever fails, the registry is left as it was; slot and interrupt
    /// lines that were taken before the failure stay taken.
    pub fn attach_pci_virtio_device(&mut self, vm: &mut Vm, id: String, device: VirtioDevice) -> (r:
        Result<(), PciManagerError>)
        requires
            old(self).pci_segment is Some,
            old(self).wf(),
            old(self).on_bus(old(vm).mmio_bus.ranges()),
            old(vm).wf(),
            device.spec_base().queues.len() < u16::MAX,
        ensures
            pci_attach_outcome((*old(self), *old(vm)), (*final(self), *final(vm)), id, device, r),
    {
        let ghost before = self.virtio_devices@;
        let ghost slots_before = self.pci_segment->0.pci_bus.device_ids@;
        let pci_device_bdf = match &mut self.pci_segment {
            Some(segment) => match segment.next_device_bdf() {
                Ok(bdf) => bdf,
                Err(err) => {
                    return Err(PciManagerError::PciRoot(err));
                },
            },
            None => {
                // not reached: the segment has been attached
                assert(false);
                return Ok(());
            },
        };
        proof {
            // the new slot was free, and the slots of the devices are not
            assert(slots_distinct(before, self.pci_segment->0.pci_bus.device_ids@)) by {
                assert forall|i: int| 0 <= i < before.len() implies slots_before[slot_of(
                    #[trigger] before[i],
                )] by {}
            }
        }
        let device_type = device.device_type();
        // One interrupt line per queue, and one for the configuration.
        let msix_num: u16 = (device.num_queues() + 1) as u16;
        let msix_vectors = match vm.create_msix_group(msix_num) {
            Ok(group) => group,
            Err(err) => {
                return Err(PciManagerError::ResourceAllocation(err));
            },
        };
        let mut virtio_device = VirtioPciDevice::new(id.clone(), device, msix_vectors, pci_device_bdf);
        match virtio_device.allocate_bars(&mut vm.resource_allocator) {
            Ok(()) => {},
            Err(err) => {
                return Err(PciManagerError::ResourceAllocation(err));
            },
        }
        proof {
            let range = (
                virtio_device.bar_address,
                (virtio_device.bar_address + CAPABILITY_BAR_SIZE - 1) as u64,
            );
            let node = choose|node: (u64, u64)|
                address_placed(
                    old(vm).resource_allocator.mmio64_memory,
                    vm.resource_allocator.mmio64_memory,
                    node,
                    CAPABILITY_BAR_SIZE,
                    CAPABILITY_BAR_SIZE,
                    AllocPolicy::FirstMatch,
                    range,
                );
            assert(serves_from(
                old(vm).resource_allocator.mmio64_memory,
                node,
                CAPABILITY_BAR_SIZE,
                CAPABILITY_BAR_SIZE,
                AllocPolicy::FirstMatch,
            ));
            assert forall|other: (u64, u64)| #[trigger]
                serves_from(
                    old(vm).resource_allocator.mmio64_memory,
                    other,
                    CAPABILITY_BAR_SIZE,
                    CAPABILITY_BAR_SIZE,
                    AllocPolicy::FirstMatch,
                ) implies place_in(
                other,
                CAPABILITY_BAR_SIZE,
                CAPABILITY_BAR_SIZE,
                AllocPolicy::FirstMatch,
            ) == Some(virtio_device.bar_address as int) by {
                assert(other.0 == node.0);
            }
        }
        let place = self.position(device_type, &id);
        let handle: u64 = match place {
            Some(i) => i as u64,
            None => self.virtio_devices.len() as u64,
        };
        Self::register_bars_with_bus(vm, &virtio_device, handle)?;
        virtio_device.register_notification_ioevent(vm);
        let ghost entry = PciEntry { device_type, device_id: id, device: virtio_device };
        proof {
            assert forall|i: int| 0 <= i < before.len() implies !regions_overlap(
                (#[trigger] before[i]).device.bar_address,
                CAPABILITY_BAR_SIZE,
                entry.device.bar_address,
                CAPABILITY_BAR_SIZE,
            ) by {
                assert(old(vm).mmio_bus.ranges().contains_key(before[i].device.bar_address));
            }
        }
        match place {
            Some(i) => {
                self.virtio_devices.set(i, PciEntry { device_type, device_id: id, device: virtio_device });
            },
            None => {
                self.virtio_devices.push(
                    PciEntry { device_type, device_id: id, device: virtio_device },
                );
            },
        }
        proof {
            assert(self.virtio_devices@ == pci_upsert(before, entry));
            let after = self.virtio_devices@;
            assert(bars_disjoint(after));
            assert(pci_keys_distinct(after));
            assert(slots_distinct(after, self.pci_segment->0.pci_bus.device_ids@));
            assert(pci_attached((*old(self), *old(vm)), (*self, *vm), id, device, entry));
        }
        Ok(())
    }
}

/// What is saved of one PCI device.
#[derive(Debug)]
pub struct VirtioDeviceState<T> {
    /// Identifier of the device.
    pub device_id: String,
    /// Address of the device on the PCI bus.
    pub pci_device_bdf: u32,
    /// State of the device itself.
    pub device_state: T,
    /// State of its transport.
    pub transport_state: VirtioPciDeviceState,
}

/// A saved PCI device as a mathematical value.
pub struct PciEntryView<V> {
    pub device_id: Seq<char>,
    pub pci_device_bdf: u32,
    pub device_state: V,
    pub transport_state: VirtioPciDeviceStateView,
}

impl<T: DeepView> DeepView for VirtioDeviceState<T> {
    type V = PciEntryView<T::V>;

    open spec fn deep_view(&self) -> PciEntryView<T::V> {
        PciEntryView {
            device_id: self.device_id@,
            pci_device_bdf: self.pci_device_bdf,
            device_state: self.device_state.deep_view(),
            transport_state: self.transport_state.deep_view(),
        }
    }
}

/// What is saved of the PCI devices of a machine.
#[derive(Debug)]
pub struct PciDevicesState {
    /// Whether PCI was enabled.
    pub pci_enabled: bool,
    /// The block devices.
    pub block_devices: Vec<VirtioDeviceState<BlockState>>,
    /// The network devices.
    pub net_devices: Vec<VirtioDeviceState<NetState>>,
    /// The vsock device.
    pub vsock_device: Option<VirtioDeviceState<VsockState>>,
    /// The balloon device.
    pub balloon_device: Option<VirtioDeviceState<BalloonState>>,
    /// The metadata service, written once however many network devices expose it.
    pub mmds: Option<MmdsState>,
    /// The entropy device.
    pub entropy_device: Option<VirtioDeviceState<EntropyState>>,
}

/// The saved PCI devices as a mathematical value.
pub struct PciDevicesStateView {
    pub pci_enabled: bool,
    pub block_devices: Seq<PciEntryView<BlockStateView>>,
    pub net_devices: Seq<PciEntryView<NetStateView>>,
    pub vsock_device: Option<PciEntryView<VsockStateView>>,
    pub balloon_device: Option<PciEntryView<BalloonStateView>>,
    pub mmds: Option<MmdsState>,
    pub entropy_device: Option<PciEntryView<EntropyStateView>>,
}

impl DeepView for PciDevicesState {
    type V = PciDevicesStateView;

    open spec fn deep_view(&self) -> PciDevicesStateView {
        PciDevicesStateView {
            pci_enabled: self.pci_enabled,
            block_devices: self.block_devices.deep_view(),
            net_devices: self.net_devices.deep_view(),
            vsock_device: self.vsock_device.deep_view(),
            balloon_device: self.balloon_device.deep_view(),
            mmds: self.mmds,
            entropy_device: self.entropy_device.deep_view(),
        }
    }
}

impl PciDevicesState {
    /// The snapshot of a machine on which PCI is not enabled.
    pub fn new() -> (s: Self)
        ensures
            s.deep_view() == disabled_snapshot(),
    {
        let s = PciDevicesState {
            pci_enabled: false,
            block_devices: Vec::new(),
            net_devices: Vec::new(),
            vsock_device: None,
            balloon_device: None,
            mmds: None,
            entropy_device: None,
        };
        proof {
            assert(s.block_devices.deep_view() =~= Seq::empty());
            assert(s.net_devices.deep_view() =~= Seq::empty());
        }
        s
    }
}

/// The snapshot of a machine on which PCI is not enabled: it holds no device.
pub open spec fn disabled_snapshot() -> PciDevicesStateView {
    PciDevicesStateView {
        pci_enabled: false,
        block_devices: Seq::empty(),
        net_devices: Seq::empty(),
        vsock_device: None,
        balloon_device: None,
        mmds: None,
        entropy_device: None,
    }
}

/// What restoring the PCI devices needs besides their saved state.
pub struct PciDevicesConstructorArgs<'a> {
    /// The machine to attach the devices to; guest memory is the one of this machine.
    pub vm: &'a mut Vm,
    /// The table of resources, which gets to know every restored device.
    pub vm_resources: &'a mut VmResources,
    /// The instance identifier that the metadata service tells the guest.
    pub instance_id: &'a str,
    /// Whether the state was read from a file.
    pub restored_from_file: bool,
    /// Where the restored devices subscribe to events.
    pub event_manager: &'a mut EventManager,
}

/// Whether `post` holds the entries of `pre`, each with its device brought to rest as
/// [`quiesced`] says.
pub open spec fn pci_all_quiesced(pre: Seq<PciEntry>, post: Seq<PciEntry>) -> bool {
    &&& post.len() == pre.len()
    &&& forall|i: int|
        0 <= i < pre.len() ==> {
            &&& (#[trigger] post[i]).device_type == pre[i].device_type
            &&& post[i].device_id == pre[i].device_id
            &&& post[i].device.id == pre[i].device.id
            &&& post[i].device.pci_device_bdf == pre[i].device.pci_device_bdf
            &&& post[i].device.msix_vectors == pre[i].device.msix_vectors
            &&& post[i].device.bar_address == pre[i].device.bar_address
            &&& post[i].device.device_activated == pre[i].device.device_activated
            &&& post[i].device.common_config == pre[i].device.common_config
            &&& quiesced(pre[i].device.device, post[i].device.device)
        }
}

/// The saved form of the entry `e` around the saved device state `device_state`.
pub open spec fn pci_entry_view<V>(e: PciEntry, device_state: V) -> PciEntryView<V> {
    PciEntryView {
        device_id: e.device.id@,
        pci_device_bdf: e.device.pci_device_bdf,
        device_state,
        transport_state: e.device.saved(),
    }
}

/// The block devices that a snapshot of `entries` holds: those that this process serves,
/// in the order of the registry.
pub open spec fn pci_captured_blocks(entries: Seq<PciEntry>) -> Seq<PciEntryView<BlockStateView>>
    decreases entries.len(),
{
    if entries.len() == 0 {
        Seq::empty()
    } else {
        let rest = pci_captured_blocks(entries.drop_last());
        match entries.last().device.device {
            VirtioDevice::Block(dev) => if dev.vhost_user {
                rest
            } else {
                rest.push(pci_entry_view(entries.last(), dev.saved()))
            },
            _ => rest,
        }
    }
}

/// The network devices that a snapshot of `entries` holds, in the order of the registry.
pub open spec fn pci_captured_nets(entries: Seq<PciEntry>) -> Seq<PciEntryView<NetStateView>>
    decreases entries.len(),
{
    if entries.len() == 0 {
        Seq::empty()
    } else {
        let rest = pci_captured_nets(entries.drop_last());
        match entries.last().device.device {
            VirtioDevice::Net(dev) => rest.push(pci_entry_view(entries.last(), dev.saved())),
            _ => rest,
        }
    }
}

/// The balloon device that a snapshot of `entries` holds: the last one of the registry.
pub open spec fn pci_captured_balloon(entries: Seq<PciEntry>) -> Option<
    PciEntryView<BalloonStateView>,
>
    decreases entries.len(),
{
    if entries.len() == 0 {
        None
    } else {
        match entries.last().device.device {
            VirtioDevice::Balloon(dev) => Some(pci_entry_view(entries.last(), dev.saved())),
            _ => pci_captured_balloon(entries.drop_last()),
        }
    }
}

/// The vsock device that a snapshot of `entries` holds: the last one of the registry.
pub open spec fn pci_captured_vsock(entries: Seq<PciEntry>) -> Option<PciEntryView<VsockStateView>>
    decreases entries.len(),
{
    if entries.len() == 0 {
        None
    } else {
        match entries.last().device.device {
            VirtioDevice::Vsock(dev) => Some(pci_entry_view(entries.last(), dev.saved())),
            _ => pci_captured_vsock(entries.drop_last()),
        }
    }
}

/// The entropy device that a snapshot of `entries` holds: the last one of the registry.
pub open spec fn pci_captured_entropy(entries: Seq<PciEntry>) -> Option<
    PciEntryView<EntropyStateView>,
>
    decreases entries.len(),
{
    if entries.len() == 0 {
        None
    } else {
        match entries.last().device.device {
            VirtioDevice::Entropy(dev) => Some(pci_entry_view(entries.last(), dev.saved())),
            _ => pci_captured_entropy(entries.drop_last()),
        }
    }
}

/// The record of the metadata service that a snapshot of `entries` holds: that of the
/// first network device that exposes the service.
pub open spec fn pci_captured_mmds(entries: Seq<PciEntry>) -> Option<MmdsState>
    decreases entries.len(),
{
    if entries.len() == 0 {
        None
    } else {
        match pci_captured_mmds(entries.drop_last()) {
            Some(record) => Some(record),
            None => match entries.last().device.device {
                VirtioDevice::Net(dev) => match dev.mmds_ns {
                    Some(ns) => Some(
                        MmdsState { version: ns.mmds.version, imds_compat: ns.mmds.imds_compat },
                    ),
                    None => None,
                },
                _ => None,
            },
        }
    }
}

/// The snapshot of the devices `entries` of a machine on which PCI is enabled.
pub open spec fn pci_captured(entries: Seq<PciEntry>) -> PciDevicesStateView {
    PciDevicesStateView {
        pci_enabled: true,
        block_devices: pci_captured_blocks(entries),
        net_devices: pci_captured_nets(entries),
        vsock_device: pci_captured_vsock(entries),
        balloon_device: pci_captured_balloon(entries),
        mmds: pci_captured_mmds(entries),
        entropy_device: pci_captured_entropy(entries),
    }
}

impl PciDevices {
    /// Brings every device to rest and saves it, as the registry of memory-mapped devices
    /// does. Without PCI enabled nothing is touched, and the snapshot says so.
    pub fn save(&mut self) -> (state: PciDevicesState)
        ensures
            final(self).pci_segment == old(self).pci_segment,
            old(self).pci_segment is None ==> *final(self) == *old(self) && state.deep_view()
                == disabled_snapshot(),
            old(self).pci_segment is Some ==> pci_all_quiesced(
                old(self).virtio_devices@,
                final(self).virtio_devices@,
            ) && state.deep_view() == pci_captured(final(self).virtio_devices@),
    {
        let mut state = PciDevicesState::new();
        if self.pci_segment.is_some() {
            state.pci_enabled = true;
        } else {
            return state;
        }
        let mut i: usize = 0;
        while i < self.virtio_devices.len()
            invariant
                0 <= i <= self.virtio_devices.len(),
                self.virtio_devices.len() == old(self).virtio_devices.len(),
                self.pci_segment == old(self).pci_segment,
                state.pci_enabled,
                pci_all_quiesced(
                    old(self).virtio_devices@.take(i as int),
                    self.virtio_devices@.take(i as int),
                ),
                forall|j: int|
                    i <= j < self.virtio_devices.len() ==> self.virtio_devices[j] == old(
                        self,
                    ).virtio_devices[j],
                state.block_devices.deep_view() =~= pci_captured_blocks(
                    self.virtio_devices@.take(i as int),
                ),
                state.net_devices.deep_view() =~= pci_captured_nets(
                    self.virtio_devices@.take(i as int),
                ),
                state.vsock_device.deep_view() == pci_captured_vsock(
                    self.virtio_devices@.take(i as int),
                ),
                state.balloon_device.deep_view() == pci_captured_balloon(
                    self.virtio_devices@.take(i as int),
                ),
                state.entropy_device.deep_view() == pci_captured_entropy(
                    self.virtio_devices@.take(i as int),
                ),
                state.mmds == pci_captured_mmds(self.virtio_devices@.take(i as int)),
            decreases self.virtio_devices.len() - i,
        {
            let ghost before = self.virtio_devices@;
            let ghost blocks_before = state.block_devices.deep_view();
            let ghost nets_before = state.net_devices.deep_view();
            let entry = &mut self.virtio_devices[i];
            let transport_state = entry.device.state();
            let pci_device_bdf = transport_state.pci_device_bdf;
            let device_id = entry.device.id.clone();
            match &mut entry.device.device {
                VirtioDevice::Balloon(dev) => {
                    let device_state = dev.save();
                    state.balloon_device = Some(
                        VirtioDeviceState {
                            device_id,
                            pci_device_bdf,
                            device_state,
                            transport_state,
                        },
                    );
                },
                VirtioDevice::Block(dev) => {
                    if !dev.is_vhost_user() {
                        dev.prepare_save();
                        let device_state = dev.save();
                        let saved = VirtioDeviceState {
                            device_id,
                            pci_device_bdf,
                            device_state,
                            transport_state,
                        };
                        state.block_devices.push(saved);
                        proof {
                            assert(state.block_devices.deep_view() =~= blocks_before.push(
                                saved.deep_view(),
                            ));
                        }
                    }
                },
                VirtioDevice::Net(dev) => {
                    match dev.mmds_ns {
                        Some(ns) => {
                            if state.mmds.is_none() {
                                state.mmds = Some(
                                    MmdsState {
                                        version: ns.mmds.version(),
                                        imds_compat: ns.mmds.imds_compat(),
                                    },
                                );
                            }
                        },
                        None => {},
                    }
                    dev.prepare_save();
                    let device_state = dev.save();
                    let saved = VirtioDeviceState {
                        device_id,
                        pci_device_bdf,
                        device_state,
                        transport_state,
                    };
                    state.net_devices.push(saved);
                    proof {
                        assert(state.net_devices.deep_view() =~= nets_before.push(
                            saved.deep_view(),
                        ));
                    }
                },
                VirtioDevice::Vsock(dev) => {
                    if dev.base.activated {
                        let _ = dev.send_transport_reset_event();
                    }
                    let device_state = VsockState {
                        backend: dev.backend().save(),
                        frontend: dev.save(),
                    };
                    state.vsock_device = Some(
                        VirtioDeviceState {
                            device_id,
                            pci_device_bdf,
                            device_state,
                            transport_state,
                        },
                    );
                },
                VirtioDevice::Entropy(dev) => {
                    let device_state = dev.save();
                    state.entropy_device = Some(
                        VirtioDeviceState {
                            device_id,
                            pci_device_bdf,
                            device_state,
                            transport_state,
                        },
                    );
                },
            }
            proof {
                let after = self.virtio_devices@;
                assert(after.take(i + 1).drop_last() =~= before.take(i as int));
                assert(after.take(i + 1).last() == after[i as int]);
                assert(after.take(i as int) =~= before.take(i as int));
            }
            i += 1;
        }
        proof {
            assert(self.virtio_devices@.take(i as int) == self.virtio_devices@);
            assert(old(self).virtio_devices@.take(i as int) == old(self).virtio_devices@);
        }
        state
    }
}

/// One saved PCI device, of whatever kind.
pub enum SavedPciDevice {
    Balloon(PciEntryView<BalloonStateView>),
    Block(PciEntryView<BlockStateView>),
    Net(PciEntryView<NetStateView>),
    Vsock(PciEntryView<VsockStateView>),
    Entropy(PciEntryView<EntropyStateView>),
}

impl SavedPciDevice {
    /// Identifier under which the device is registered.
    pub open spec fn device_id(self) -> Seq<char> {
        match self {
            SavedPciDevice::Balloon(e) => e.device_id,
            SavedPciDevice::Block(e) => e.device_id,
            SavedPciDevice::Net(e) => e.device_id,
            SavedPciDevice::Vsock(e) => e.device_id,
            SavedPciDevice::Entropy(e) => e.device_id,
        }
    }

    /// The saved state of the device itself.
    pub open spec fn kind_state(self) -> KindState {
        match self {
            SavedPciDevice::Balloon(e) => KindState::Balloon(e.device_state),
            SavedPciDevice::Block(e) => KindState::Block(e.device_state),
            SavedPciDevice::Net(e) => KindState::Net(e.device_state),
            SavedPciDevice::Vsock(e) => KindState::Vsock(e.device_state),
            SavedPciDevice::Entropy(e) => KindState::Entropy(e.device_state),
        }
    }

    /// Device type tag.
    pub open spec fn device_type(self) -> u32 {
        self.kind_state().device_type()
    }

    /// The saved state of the transport.
    pub open spec fn transport_state(self) -> VirtioPciDeviceStateView {
        match self {
            SavedPciDevice::Balloon(e) => e.transport_state,
            SavedPciDevice::Block(e) => e.transport_state,
            SavedPciDevice::Net(e) => e.transport_state,
            SavedPciDevice::Vsock(e) => e.transport_state,
            SavedPciDevice::Entropy(e) => e.transport_state,
        }
    }

    /// The device slot that the saved address names.
    pub open spec fn slot(self) -> int {
        spec_bdf_device(self.transport_state().pci_device_bdf) as int
    }

    /// This saved device as a restored device saves again: the address that is saved
    /// beside the transport is the one of the transport, and the device is activated
    /// exactly if the transport says so.
    pub open spec fn normal(self) -> SavedPciDevice {
        let bdf = self.transport_state().pci_device_bdf;
        let activated = self.transport_state().device_activated;
        match self {
            SavedPciDevice::Balloon(e) => SavedPciDevice::Balloon(
                PciEntryView {
                    pci_device_bdf: bdf,
                    device_state: BalloonStateView {
                        virtio_state: VirtioDeviceStateView {
                            activated,
                            ..e.device_state.virtio_state
                        },
                        ..e.device_state
                    },
                    ..e
                },
            ),
            SavedPciDevice::Block(e) => SavedPciDevice::Block(
                PciEntryView {
                    pci_device_bdf: bdf,
                    device_state: BlockStateView {
                        virtio_state: VirtioDeviceStateView {
                            activated,
                            ..e.device_state.virtio_state
                        },
                        ..e.device_state
                    },
                    ..e
                },
            ),
            SavedPciDevice::Net(e) => SavedPciDevice::Net(
                PciEntryView {
                    pci_device_bdf: bdf,
                    device_state: NetStateView {
                        virtio_state: VirtioDeviceStateView {
                            activated,
                            ..e.device_state.virtio_state
                        },
                        ..e.device_state
                    },
                    ..e
                },
            ),
            SavedPciDevice::Vsock(e) => SavedPciDevice::Vsock(
                PciEntryView {
                    pci_device_bdf: bdf,
                    device_state: VsockStateView {
                        virtio_state: VirtioDeviceStateView {
                            activated,
                            ..e.device_state.virtio_state
                        },
                        ..e.device_state
                    },
                    ..e
                },
            ),
            SavedPciDevice::Entropy(e) => SavedPciDevice::Entropy(
                PciEntryView {
                    pci_device_bdf: bdf,
                    device_state: EntropyStateView {
                        virtio_state: VirtioDeviceStateView {
                            activated,
                            ..e.device_state.virtio_state
                        },
                        ..e.device_state
                    },
                    ..e
                },
            ),
        }
    }
}

/// The registry entry `e` in the form in which a snapshot would hold it.
pub open spec fn pci_as_saved(e: PciEntry) -> SavedPciDevice {
    match e.device.device {
        VirtioDevice::Balloon(dev) => SavedPciDevice::Balloon(pci_entry_view(e, dev.saved())),
        VirtioDevice::Block(dev) => SavedPciDevice::Block(pci_entry_view(e, dev.saved())),
        VirtioDevice::Net(dev) => SavedPciDevice::Net(pci_entry_view(e, dev.saved())),
        VirtioDevice::Vsock(dev) => SavedPciDevice::Vsock(pci_entry_view(e, dev.saved())),
        VirtioDevice::Entropy(dev) => SavedPciDevice::Entropy(pci_entry_view(e, dev.saved())),
    }
}

/// What restoring works on: the registry, as the saved forms of its entries, the slots of
/// the PCI bus, and what the machine, the event manager and the table of resources hold.
pub struct RestoredPciWorld {
    pub entries: Seq<SavedPciDevice>,
    pub slots: Seq<bool>,
    pub bus: Map<u64, (u64, u64)>,
    pub actions: Seq<HostAction>,
    pub subscribers: Seq<(u32, Seq<char>)>,
    pub resources: VmResourcesView,
}

/// The world that `manager`, on which PCI is enabled, `vm`, `event_manager` and
/// `vm_resources` make up.
pub open spec fn pci_world_of(
    manager: PciDevices,
    vm: Vm,
    event_manager: EventManager,
    vm_resources: VmResources,
) -> RestoredPciWorld {
    RestoredPciWorld {
        entries: manager.virtio_devices@.map_values(|e: PciEntry| pci_as_saved(e)),
        slots: manager.pci_segment->0.pci_bus.device_ids@,
        bus: vm.mmio_bus.ranges(),
        actions: vm.actions@,
        subscribers: event_manager.deep_view(),
        resources: vm_resources.deep_view(),
    }
}

/// Whether `entries` holds a device of the type and identifier of `item`.
pub open spec fn pci_already_held(entries: Seq<SavedPciDevice>, item: SavedPciDevice) -> bool {
    exists|j: int|
        0 <= j < entries.len() && (#[trigger] entries[j]).device_type() == item.device_type()
            && entries[j].device_id() == item.device_id()
}

/// Second part of restoring `item`: its activation is replayed in `mem`, it takes the slot
/// of its saved address, it goes into the registry and its BAR on the bus of memory-mapped
/// registers where it was saved, the host is asked to wake it when the guest notifies a
/// queue, and it subscribes to events.
pub open spec fn pci_item_registered(
    world: RestoredPciWorld,
    item: SavedPciDevice,
    mem: GuestMemory,
) -> Result<RestoredPciWorld, PciManagerError> {
    let transport = item.transport_state();
    let queues = item.kind_state().virtio_state().queues;
    if pci_already_held(world.entries, item) {
        Err(PciManagerError::DeviceRestore(DevicePersistError::DuplicateDevice))
    } else if transport.device_activated && !all_valid_in(queues, &mem) {
        Err(
            PciManagerError::DeviceRestore(
                DevicePersistError::DeviceActivation(ActivateError::QueueMemoryError),
            ),
        )
    } else if world.slots[item.slot()] {
        Err(PciManagerError::PciRoot(PciRootError::AlreadyInUsePciDeviceSlot(item.slot() as u32)))
    } else if !range_valid(transport.bar_address, CAPABILITY_BAR_SIZE) {
        Err(PciManagerError::Bus(BusError::InvalidRange))
    } else if overlaps_any(world.bus, transport.bar_address, CAPABILITY_BAR_SIZE) {
        Err(PciManagerError::Bus(BusError::Overlap))
    } else {
        Ok(
            RestoredPciWorld {
                entries: world.entries.push(item.normal()),
                slots: world.slots.update(item.slot(), true),
                bus: world.bus.insert(
                    transport.bar_address,
                    (CAPABILITY_BAR_SIZE, world.entries.len() as u64),
                ),
                actions: world.actions + notification_actions(transport.bar_address, queues.len()),
                subscribers: world.subscribers.push((item.device_type(), item.device_id())),
                resources: world.resources,
            },
        )
    }
}

/// Restoring `item` in `world`: the world afterwards, or the reason why the device could
/// not be restored. The first part is that of [`kind_checked`].
pub open spec fn pci_item_applied(
    world: RestoredPciWorld,
    item: SavedPciDevice,
    mem: GuestMemory,
) -> Result<RestoredPciWorld, PciManagerError> {
    match kind_checked(item.kind_state(), world.resources) {
        Ok(resources) => pci_item_registered(RestoredPciWorld { resources, ..world }, item, mem),
        Err(err) => Err(PciManagerError::DeviceRestore(err)),
    }
}

/// Restoring `items` one after the other, stopping at the first that fails.
pub open spec fn pci_items_applied(
    world: RestoredPciWorld,
    items: Seq<SavedPciDevice>,
    mem: GuestMemory,
) -> Result<RestoredPciWorld, PciManagerError>
    decreases items.len(),
{
    if items.len() == 0 {
        Ok(world)
    } else {
        match pci_item_applied(world, items[0], mem) {
            Ok(next) => pci_items_applied(next, items.drop_first(), mem),
            Err(err) => Err(err),
        }
    }
}

/// Restoring `item`, if there is one.
pub open spec fn pci_option_applied(
    world: RestoredPciWorld,
    item: Option<SavedPciDevice>,
    mem: GuestMemory,
) -> Result<RestoredPciWorld, PciManagerError> {
    match item {
        Some(item) => pci_item_applied(world, item, mem),
        None => Ok(world),
    }
}

/// The saved balloon device as an item to restore.
pub open spec fn pci_balloon_item(s: PciDevicesStateView) -> Option<SavedPciDevice> {
    match s.balloon_device {
        Some(e) => Some(SavedPciDevice::Balloon(e)),
        None => None,
    }
}

/// The saved block devices as items to restore.
pub open spec fn pci_block_items(s: PciDevicesStateView) -> Seq<SavedPciDevice> {
    s.block_devices.map_values(|e: PciEntryView<BlockStateView>| SavedPciDevice::Block(e))
}

/// The saved network devices as items to restore.
pub open spec fn pci_net_items(s: PciDevicesStateView) -> Seq<SavedPciDevice> {
    s.net_devices.map_values(|e: PciEntryView<NetStateView>| SavedPciDevice::Net(e))
}

/// The saved vsock device as an item to restore.
pub open spec fn pci_vsock_item(s: PciDevicesStateView) -> Option<SavedPciDevice> {
    match s.vsock_device {
        Some(e) => Some(SavedPciDevice::Vsock(e)),
        None => None,
    }
}

/// The saved entropy device as an item to restore.
pub open spec fn pci_entropy_item(s: PciDevicesStateView) -> Option<SavedPciDevice> {
    match s.entropy_device {
        Some(e) => Some(SavedPciDevice::Entropy(e)),
        None => None,
    }
}

/// Whether a saved network device exposed the metadata service.
pub open spec fn pci_some_net_exposes_mmds(s: PciDevicesStateView) -> bool {
    exists|i: int|
        0 <= i < s.net_devices.len() && (#[trigger] s.net_devices[i]).device_state.mmds_ns is Some
}

/// The table of resources with the metadata service as the snapshot `s` asks for it: as
/// its record says; if there is no record but a network device exposed the service, as it
/// is by default; otherwise untouched.
pub open spec fn pci_mmds_configured(
    resources: VmResourcesView,
    s: PciDevicesStateView,
    instance_id: Seq<char>,
) -> VmResourcesView {
    match s.mmds {
        Some(record) => resources.with_mmds_config(record.version, record.imds_compat, instance_id),
        None => if pci_some_net_exposes_mmds(s) {
            resources.with_default_mmds()
        } else {
            resources
        },
    }
}

/// Restoring the snapshot `s`, in which PCI is enabled, in `world`, in the fixed order:
/// the balloon device, the block devices, the metadata service, the network devices, the
/// vsock device, the entropy device. The first failure ends it.
pub open spec fn pci_restore_outcome(
    world: RestoredPciWorld,
    s: PciDevicesStateView,
    instance_id: Seq<char>,
    mem: GuestMemory,
) -> Result<RestoredPciWorld, PciManagerError> {
    match pci_option_applied(world, pci_balloon_item(s), mem) {
        Err(err) => Err(err),
        Ok(w1) => match pci_items_applied(w1, pci_block_items(s), mem) {
            Err(err) => Err(err),
            Ok(w2) => match pci_items_applied(
                RestoredPciWorld {
                    resources: pci_mmds_configured(w2.resources, s, instance_id),
                    ..w2
                },
                pci_net_items(s),
                mem,
            ) {
                Err(err) => Err(err),
                Ok(w3) => match pci_option_applied(w3, pci_vsock_item(s), mem) {
                    Err(err) => Err(err),
                    Ok(w4) => pci_option_applied(w4, pci_entropy_item(s), mem),
                },
            },
        },
    }
}

/// What restoring one device does: what [`pci_item_applied`] says of the world, and on
/// success a registry that is well formed, on the bus of the machine, fresh, and longer by
/// the device.
pub open spec fn pci_applied(
    pre: (PciDevices, Vm, EventManager, VmResources),
    post: (PciDevices, Vm, EventManager, VmResources),
    item: SavedPciDevice,
    r: Result<(), PciManagerError>,
) -> bool {
    &&& post.1.guest_memory == pre.1.guest_memory
    &&& post.1.resource_allocator == pre.1.resource_allocator
    &&& match pci_item_applied(pci_world_of(pre.0, pre.1, pre.2, pre.3), item, pre.1.guest_memory) {
        Ok(after) => {
            &&& r is Ok
            &&& pci_world_of(post.0, post.1, post.2, post.3) == after
            &&& post.0.pci_segment is Some
            &&& post.0.wf()
            &&& post.0.on_bus(post.1.mmio_bus.ranges())
            &&& post.0.all_fresh(post.3.mmds)
            &&& pci_extended(pre.0, post.0, item.device_type())
        },
        Err(err) => r matches Err(e) && e == err,
    }
}

/// What restoring the devices `items` does: what [`pci_items_applied`] says of the world,
/// and on success a registry that is well formed, on the bus of the machine, and fresh.
pub open spec fn pci_all_applied(
    pre: (PciDevices, Vm, EventManager, VmResources),
    post: (PciDevices, Vm, EventManager, VmResources),
    items: Seq<SavedPciDevice>,
    r: Result<(), PciManagerError>,
) -> bool {
    &&& post.1.guest_memory == pre.1.guest_memory
    &&& post.1.resource_allocator == pre.1.resource_allocator
    &&& match pci_items_applied(pci_world_of(pre.0, pre.1, pre.2, pre.3), items, pre.1.guest_memory) {
        Ok(after) => {
            &&& r is Ok
            &&& pci_world_of(post.0, post.1, post.2, post.3) == after
            &&& post.0.pci_segment is Some
            &&& post.0.wf()
            &&& post.0.on_bus(post.1.mmio_bus.ranges())
            &&& post.0.all_fresh(post.3.mmds)
        },
        Err(err) => r matches Err(e) && e == err,
    }
}

/// Whether `post` holds the devices of `pre` and behind them one device of the type
/// `device_type`.
pub open spec fn pci_extended(pre: PciDevices, post: PciDevices, device_type: u32) -> bool {
    &&& post.virtio_devices@.len() == pre.virtio_devices@.len() + 1
    &&& post.virtio_devices@.drop_last() == pre.virtio_devices@
    &&& post.virtio_devices@.last().device.device.spec_device_type() == device_type
}

/// The slots of a PCI bus on which only the root has a slot.
pub open spec fn empty_slots() -> Seq<bool> {
    Seq::new(NUM_DEVICE_IDS as nat, |j: int| j == 0)
}

/// What restoring the snapshot `s` does to a machine, an event manager and a table of
/// resources. A snapshot in which PCI is not enabled gives an empty registry without PCI
/// and touches nothing. Otherwise the restore never touches guest memory or the
/// allocators; it succeeds exactly when [`pci_restore_outcome`] does on a fresh PCI bus,
/// with the same error otherwise; and on success the registry returned and what the three
/// hold make up the world that [`pci_restore_outcome`] gives, the registry being well
/// formed, on the bus of the machine, and fresh.
pub open spec fn pci_restored(
    pre: (Vm, EventManager, VmResources),
    post: (Vm, EventManager, VmResources),
    s: PciDevicesStateView,
    instance_id: Seq<char>,
    r: Result<PciDevices, PciManagerError>,
) -> bool {
    if !s.pci_enabled {
        &&& post == pre
        &&& r matches Ok(manager)
        &&& manager.pci_segment is None
        &&& manager.virtio_devices@ == Seq::<PciEntry>::empty()
    } else {
        &&& post.0.guest_memory == pre.0.guest_memory
        &&& post.0.resource_allocator == pre.0.resource_allocator
        &&& match pci_restore_outcome(
            RestoredPciWorld {
                entries: Seq::empty(),
                slots: empty_slots(),
                bus: pre.0.mmio_bus.ranges(),
                actions: pre.0.actions@,
                subscribers: pre.1.deep_view(),
                resources: pre.2.deep_view(),
            },
            s,
            instance_id,
            pre.0.guest_memory,
        ) {
            Ok(after) => {
                &&& r matches Ok(manager)
                &&& manager.pci_segment is Some
                &&& pci_world_of(manager, post.0, post.1, post.2) == after
                &&& manager.wf()
                &&& manager.on_bus(post.0.mmio_bus.ranges())
                &&& manager.all_fresh(post.2.mmds)
            },
            Err(err) => r matches Err(e) && e == err,
        }
    }
}

impl PciDevices {
    /// Whether every device is as a device is that was just restored.
    pub open spec fn all_fresh(&self, mmds: Option<Mmds>) -> bool {
        forall|i: int|
            0 <= i < self.virtio_devices.len() ==> fresh_device(
                (#[trigger] self.virtio_devices[i]).device.device,
                mmds,
            )
    }

    /// Whether no device of the registry is a network device.
    pub open spec fn without_nets(&self) -> bool {
        forall|i: int|
            0 <= i < self.virtio_devices.len() ==> !((
            #[trigger] self.virtio_devices[i]).device.device is Net)
    }

    /// Second part of restoring a device: see [`pci_item_registered`].
    fn restore_pci_device(
        &mut self,
        vm: &mut Vm,
        device: VirtioDevice,
        device_id: &String,
        transport_state: &VirtioPciDeviceState,
        event_manager: &mut EventManager,
        Ghost(item): Ghost<SavedPciDevice>,
        Ghost(vm_resources): Ghost<VmResources>,
    ) -> (r: Result<(), PciManagerError>)
        requires
            old(self).pci_segment is Some,
            old(self).wf(),
            old(self).on_bus(old(vm).mmio_bus.ranges()),
            old(self).all_fresh(vm_resources.mmds),
            !device.spec_is_activated(),
            fresh_device(device, vm_resources.mmds),
            device.spec_base().queues.len() <= u16::MAX,
            item.device_id() == device_id@,
            item.transport_state() == transport_state.deep_view(),
            kind_saved(device) == kind_inactive(item.kind_state()),
        ensures
            final(vm).guest_memory == old(vm).guest_memory,
            final(vm).resource_allocator == old(vm).resource_allocator,
            match pci_item_registered(
                pci_world_of(*old(self), *old(vm), *old(event_manager), vm_resources),
                item,
                old(vm).guest_memory,
            ) {
                Ok(after) => {
                    &&& r is Ok
                    &&& pci_world_of(*final(self), *final(vm), *final(event_manager), vm_resources)
                        == after
                    &&& final(self).pci_segment is Some
                    &&& final(self).wf()
                    &&& final(self).on_bus(final(vm).mmio_bus.ranges())
                    &&& final(self).all_fresh(vm_resources.mmds)
                    &&& pci_extended(*old(self), *final(self), device.spec_device_type())
                },
                Err(err) => r matches Err(e) && e == err,
            },
    {
        let ghost world = pci_world_of(*self, *vm, *event_manager, vm_resources);
        let ghost before = self.virtio_devices@;
        let ghost slots_before = self.pci_segment->0.pci_bus.device_ids@;
        let device_type = device.device_type();
        let place = self.position(device_type, device_id);
        proof {
            assert(item.device_type() == device_type);
            if pci_already_held(world.entries, item) {
                let j = choose|j: int|
                    0 <= j < world.entries.len() && (#[trigger] world.entries[j]).device_type()
                        == item.device_type() && world.entries[j].device_id() == item.device_id();
                assert(pci_as_saved(before[j]).device_id() == before[j].device.id@);
                assert(before[j].device_type == device_type);
                assert(place is Some);
            }
            if place is Some {
                let j = place->0 as int;
                assert(world.entries[j] == pci_as_saved(before[j]));
                assert(world.entries[j].device_type() == item.device_type());
                assert(world.entries[j].device_id() == item.device_id());
            }
        }
        if place.is_some() {
            return Err(PciManagerError::DeviceRestore(DevicePersistError::DuplicateDevice));
        }
        let msi_vector_group = MsiVectorGroup::restore(&transport_state.msi_vector_group);
        let virtio_device = match VirtioPciDevice::new_from_state(
            device_id.clone(),
            &vm.guest_memory,
            device,
            msi_vector_group,
            transport_state,
        ) {
            Ok(virtio_device) => virtio_device,
            Err(err) => {
                return Err(
                    PciManagerError::DeviceRestore(DevicePersistError::DeviceActivation(err)),
                );
            },
        };
        let slot = bdf_device(transport_state.pci_device_bdf);
        match &mut self.pci_segment {
            Some(segment) => match segment.pci_bus.get_device_id(slot as u32) {
                Ok(()) => {},
                Err(err) => {
                    return Err(PciManagerError::PciRoot(err));
                },
            },
            None => {
                // not reached: the segment has been attached
                assert(false);
            },
        }
        proof {
            assert(slots_distinct(before, self.pci_segment->0.pci_bus.device_ids@)) by {
                assert forall|i: int| 0 <= i < before.len() implies slots_before[slot_of(
                    #[trigger] before[i],
                )] by {}
            }
        }
        let handle = self.virtio_devices.len() as u64;
        Self::register_bars_with_bus(vm, &virtio_device, handle)?;
        virtio_device.register_notification_ioevent(vm);
        let ghost entry = PciEntry { device_type, device_id: *device_id, device: virtio_device };
        proof {
            assert forall|i: int| 0 <= i < before.len() implies !regions_overlap(
                (#[trigger] before[i]).device.bar_address,
                CAPABILITY_BAR_SIZE,
                entry.device.bar_address,
                CAPABILITY_BAR_SIZE,
            ) by {
                assert(old(vm).mmio_bus.ranges().contains_key(before[i].device.bar_address));
            }
        }
        self.virtio_devices.push(
            PciEntry { device_type, device_id: device_id.clone(), device: virtio_device },
        );
        event_manager.add_subscriber(device_type, device_id.clone());
        proof {
            assert(self.virtio_devices@ == before.push(entry));
            assert(pci_as_saved(entry) == item.normal());
            assert(self.virtio_devices@.map_values(|e: PciEntry| pci_as_saved(e))
                =~= world.entries.push(item.normal()));
            assert(self.virtio_devices@.drop_last() =~= before);
            let after = self.virtio_devices@;
            assert(bars_disjoint(after));
            assert(pci_keys_distinct(after));
            assert(slots_distinct(after, self.pci_segment->0.pci_bus.device_ids@));
        }
        Ok(())
    }

    /// Restores the balloon device.
    fn restore_balloon(
        &mut self,
        vm: &mut Vm,
        event_manager: &mut EventManager,
        vm_resources: &mut VmResources,
        state: &VirtioDeviceState<BalloonState>,
        restored_from_file: bool,
    ) -> (r: Result<(), PciManagerError>)
        requires
            old(self).pci_segment is Some,
            old(self).wf(),
            old(self).on_bus(old(vm).mmio_bus.ranges()),
            old(self).all_fresh(old(vm_resources).mmds),
        ensures
            pci_applied(
                (*old(self), *old(vm), *old(event_manager), *old(vm_resources)),
                (*final(self), *final(vm), *final(event_manager), *final(vm_resources)),
                SavedPciDevice::Balloon(state.deep_view()),
                r,
            ),
    {
        let device = match rebuild_balloon(vm_resources, &state.device_state, restored_from_file) {
            Ok(device) => device,
            Err(err) => {
                return Err(PciManagerError::DeviceRestore(err));
            },
        };
        self.restore_pci_device(
            vm,
            device,
            &state.device_id,
            &state.transport_state,
            event_manager,
            Ghost(SavedPciDevice::Balloon(state.deep_view())),
            Ghost(*vm_resources),
        )
    }

    /// Restores one block device.
    fn restore_block(
        &mut self,
        vm: &mut Vm,
        event_manager: &mut EventManager,
        vm_resources: &mut VmResources,
        state: &VirtioDeviceState<BlockState>,
    ) -> (r: Result<(), PciManagerError>)
        requires
            old(self).pci_segment is Some,
            old(self).wf(),
            old(self).on_bus(old(vm).mmio_bus.ranges()),
            old(self).all_fresh(old(vm_resources).mmds),
        ensures
            pci_applied(
                (*old(self), *old(vm), *old(event_manager), *old(vm_resources)),
                (*final(self), *final(vm), *final(event_manager), *final(vm_resources)),
                SavedPciDevice::Block(state.deep_view()),
                r,
            ),
    {
        let device = match rebuild_block(vm_resources, &state.device_state) {
            Ok(device) => device,
            Err(err) => {
                return Err(PciManagerError::DeviceRestore(err));
            },
        };
        self.restore_pci_device(
            vm,
            device,
            &state.device_id,
            &state.transport_state,
            event_manager,
            Ghost(SavedPciDevice::Block(state.deep_view())),
            Ghost(*vm_resources),
        )
    }

    /// Restores one network device.
    fn restore_net(
        &mut self,
        vm: &mut Vm,
        event_manager: &mut EventManager,
        vm_resources: &mut VmResources,
        state: &VirtioDeviceState<NetState>,
    ) -> (r: Result<(), PciManagerError>)
        requires
            old(self).pci_segment is Some,
            old(self).wf(),
            old(self).on_bus(old(vm).mmio_bus.ranges()),
            old(self).all_fresh(old(vm_resources).mmds),
        ensures
            pci_applied(
                (*old(self), *old(vm), *old(event_manager), *old(vm_resources)),
                (*final(self), *final(vm), *final(event_manager), *final(vm_resources)),
                SavedPciDevice::Net(state.deep_view()),
                r,
            ),
    {
        let device = match rebuild_net(vm_resources, &state.device_state) {
            Ok(device) => device,
            Err(err) => {
                return Err(PciManagerError::DeviceRestore(err));
            },
        };
        self.restore_pci_device(
            vm,
            device,
            &state.device_id,
            &state.transport_state,
            event_manager,
            Ghost(SavedPciDevice::Net(state.deep_view())),
            Ghost(*vm_resources),
        )
    }

    /// Restores the vsock device.
    fn restore_vsock(
        &mut self,
        vm: &mut Vm,
        event_manager: &mut EventManager,
        vm_resources: &mut VmResources,
        state: &VirtioDeviceState<VsockState>,
    ) -> (r: Result<(), PciManagerError>)
        requires
            old(self).pci_segment is Some,
            old(self).wf(),
            old(self).on_bus(old(vm).mmio_bus.ranges()),
            old(self).all_fresh(old(vm_resources).mmds),
        ensures
            pci_applied(
                (*old(self), *old(vm), *old(event_manager), *old(vm_resources)),
                (*final(self), *final(vm), *final(event_manager), *final(vm_resources)),
                SavedPciDevice::Vsock(state.deep_view()),
                r,
            ),
    {
        let device = match rebuild_vsock(vm_resources, &state.device_state) {
            Ok(device) => device,
            Err(err) => {
                return Err(PciManagerError::DeviceRestore(err));
            },
        };
        self.restore_pci_device(
            vm,
            device,
            &state.device_id,
            &state.transport_state,
            event_manager,
            Ghost(SavedPciDevice::Vsock(state.deep_view())),
            Ghost(*vm_resources),
        )
    }

    /// Restores the entropy device.
    fn restore_entropy(
        &mut self,
        vm: &mut Vm,
        event_manager: &mut EventManager,
        vm_resources: &mut VmResources,
        state: &VirtioDeviceState<EntropyState>,
    ) -> (r: Result<(), PciManagerError>)
        requires
            old(self).pci_segment is Some,
            old(self).wf(),
            old(self).on_bus(old(vm).mmio_bus.ranges()),
            old(self).all_fresh(old(vm_resources).mmds),
        ensures
            pci_applied(
                (*old(self), *old(vm), *old(event_manager), *old(vm_resources)),
                (*final(self), *final(vm), *final(event_manager), *final(vm_resources)),
                SavedPciDevice::Entropy(state.deep_view()),
                r,
            ),
    {
        let device = match rebuild_entropy(vm_resources, &state.device_state) {
            Ok(device) => device,
            Err(err) => {
                return Err(PciManagerError::DeviceRestore(err));
            },
        };
        self.restore_pci_device(
            vm,
            device,
            &state.device_id,
            &state.transport_state,
            event_manager,
            Ghost(SavedPciDevice::Entropy(state.deep_view())),
            Ghost(*vm_resources),
        )
    }

    /// Restores the block devices `states`, in their order.
    fn restore_blocks(
        &mut self,
        vm: &mut Vm,
        event_manager: &mut EventManager,
        vm_resources: &mut VmResources,
        states: &Vec<VirtioDeviceState<BlockState>>,
    ) -> (r: Result<(), PciManagerError>)
        requires
            old(self).pci_segment is Some,
            old(self).wf(),
            old(self).on_bus(old(vm).mmio_bus.ranges()),
            old(self).all_fresh(old(vm_resources).mmds),
            old(self).without_nets(),
        ensures
            pci_all_applied(
                (*old(self), *old(vm), *old(event_manager), *old(vm_resources)),
                (*final(self), *final(vm), *final(event_manager), *final(vm_resources)),
                states.deep_view().map_values(|e: PciEntryView<BlockStateView>| SavedPciDevice::Block(e)),
                r,
            ),
            r is Ok ==> final(self).without_nets(),
    {
        let ghost items = states.deep_view().map_values(
            |e: PciEntryView<BlockStateView>| SavedPciDevice::Block(e),
        );
        let ghost mem = vm.guest_memory;
        let ghost start = pci_world_of(*self, *vm, *event_manager, *vm_resources);
        proof {
            assert(items.skip(0) =~= items);
        }
        let mut i: usize = 0;
        while i < states.len()
            invariant
                0 <= i <= states.len(),
                items == states.deep_view().map_values(
                    |e: PciEntryView<BlockStateView>| SavedPciDevice::Block(e),
                ),
                mem == vm.guest_memory,
                mem == old(vm).guest_memory,
                start == pci_world_of(*old(self), *old(vm), *old(event_manager), *old(vm_resources)),
                vm.resource_allocator == old(vm).resource_allocator,
                self.pci_segment is Some,
                self.wf(),
                self.on_bus(vm.mmio_bus.ranges()),
                self.all_fresh(vm_resources.mmds),
                self.without_nets(),
                pci_items_applied(start, items, mem) == pci_items_applied(
                    pci_world_of(*self, *vm, *event_manager, *vm_resources),
                    items.skip(i as int),
                    mem,
                ),
            decreases states.len() - i,
        {
            let ghost before = *self;
            proof {
                let rest = items.skip(i as int);
                assert(rest[0] == SavedPciDevice::Block(states[i as int].deep_view()));
                assert(rest.drop_first() =~= items.skip(i + 1));
            }
            self.restore_block(vm, event_manager, vm_resources, &states[i])?;
            proof {
                assert forall|j: int| 0 <= j < self.virtio_devices.len() implies !((
                #[trigger] self.virtio_devices[j]).device.device is Net) by {
                    if j < before.virtio_devices.len() {
                        assert(self.virtio_devices@.drop_last()[j] == before.virtio_devices[j]);
                    }
                }
            }
            i += 1;
        }
        Ok(())
    }

    /// Restores the network devices `states`, in their order.
    fn restore_nets(
        &mut self,
        vm: &mut Vm,
        event_manager: &mut EventManager,
        vm_resources: &mut VmResources,
        states: &Vec<VirtioDeviceState<NetState>>,
    ) -> (r: Result<(), PciManagerError>)
        requires
            old(self).pci_segment is Some,
            old(self).wf(),
            old(self).on_bus(old(vm).mmio_bus.ranges()),
            old(self).all_fresh(old(vm_resources).mmds),
        ensures
            pci_all_applied(
                (*old(self), *old(vm), *old(event_manager), *old(vm_resources)),
                (*final(self), *final(vm), *final(event_manager), *final(vm_resources)),
                states.deep_view().map_values(|e: PciEntryView<NetStateView>| SavedPciDevice::Net(e)),
                r,
            ),
    {
        let ghost items = states.deep_view().map_values(
            |e: PciEntryView<NetStateView>| SavedPciDevice::Net(e),
        );
        let ghost mem = vm.guest_memory;
        let ghost start = pci_world_of(*self, *vm, *event_manager, *vm_resources);
        proof {
            assert(items.skip(0) =~= items);
        }
        let mut i: usize = 0;
        while i < states.len()
            invariant
                0 <= i <= states.len(),
                items == states.deep_view().map_values(
                    |e: PciEntryView<NetStateView>| SavedPciDevice::Net(e),
                ),
                mem == vm.guest_memory,
                mem == old(vm).guest_memory,
                start == pci_world_of(*old(self), *old(vm), *old(event_manager), *old(vm_resources)),
                vm.resource_allocator == old(vm).resource_allocator,
                self.pci_segment is Some,
                self.wf(),
                self.on_bus(vm.mmio_bus.ranges()),
                self.all_fresh(vm_resources.mmds),
                pci_items_applied(start, items, mem) == pci_items_applied(
                    pci_world_of(*self, *vm, *event_manager, *vm_resources),
                    items.skip(i as int),
                    mem,
                ),
            decreases states.len() - i,
        {
            proof {
                let rest = items.skip(i as int);
                assert(rest[0] == SavedPciDevice::Net(states[i as int].deep_view()));
                assert(rest.drop_first() =~= items.skip(i + 1));
            }
            self.restore_net(vm, event_manager, vm_resources, &states[i])?;
            i += 1;
        }
        Ok(())
    }

    /// Configures the metadata service as the snapshot asks for it: see
    /// [`pci_mmds_configured`].
    fn restore_mmds(vm_resources: &mut VmResources, state: &PciDevicesState, instance_id: &str)
        ensures
            final(vm_resources).deep_view() == pci_mmds_configured(
                old(vm_resources).deep_view(),
                state.deep_view(),
                instance_id@,
            ),
    {
        match state.mmds {
            Some(mmds) => {
                vm_resources.set_mmds_basic_config(mmds.version, mmds.imds_compat, instance_id);
            },
            None => {
                if pci_any_net_exposes_mmds(&state.net_devices) {
                    // The snapshot is of a time when the record was not written yet.
                    let _ = vm_resources.mmds_or_default();
                }
            },
        }
    }

    /// Rebuilds the registry from `state` on `vm`: see [`Self::restore`].
    fn restore_on(
        vm: &mut Vm,
        event_manager: &mut EventManager,
        vm_resources: &mut VmResources,
        instance_id: &str,
        restored_from_file: bool,
        state: &PciDevicesState,
    ) -> (r: Result<PciDevices, PciManagerError>)
        ensures
            pci_restored(
                (*old(vm), *old(event_manager), *old(vm_resources)),
                (*final(vm), *final(event_manager), *final(vm_resources)),
                state.deep_view(),
                instance_id@,
                r,
            ),
    {
        let mut pci_devices = PciDevices::new();
        if !state.pci_enabled {
            return Ok(pci_devices);
        }
        let _ = pci_devices.attach_pci_segment(vm);
        proof {
            let w0 = pci_world_of(pci_devices, *vm, *event_manager, *vm_resources);
            assert(w0.entries =~= Seq::empty());
            assert(w0.slots =~= empty_slots());
        }
        if let Some(balloon_state) = &state.balloon_device {
            pci_devices.restore_balloon(
                vm,
                event_manager,
                vm_resources,
                balloon_state,
                restored_from_file,
            )?;
        }
        pci_devices.restore_blocks(vm, event_manager, vm_resources, &state.block_devices)?;
        // The metadata service has to be there before a network device refers to it.
        Self::restore_mmds(vm_resources, state, instance_id);
        pci_devices.restore_nets(vm, event_manager, vm_resources, &state.net_devices)?;
        if let Some(vsock_state) = &state.vsock_device {
            pci_devices.restore_vsock(vm, event_manager, vm_resources, vsock_state)?;
        }
        if let Some(entropy_state) = &state.entropy_device {
            pci_devices.restore_entropy(vm, event_manager, vm_resources, entropy_state)?;
        }
        Ok(pci_devices)
    }

    /// Rebuilds the registry from a snapshot, on the machine and with the event manager
    /// and table of resources of `args`.
    ///
    /// A snapshot in which PCI is not enabled gives an empty registry. Otherwise PCI is
    /// enabled and the devices are restored in a fixed order, as [`pci_restore_outcome`]
    /// says: each in the slot, with the BAR and with the interrupt lines that it was saved
    /// with, none newly allocated. The first failure ends the restore, and no registry is
    /// returned.
    pub fn restore(args: PciDevicesConstructorArgs<'_>, state: &PciDevicesState) -> (r: Result<
        PciDevices,
        PciManagerError,
    >)
        ensures
            pci_restored(
                (*old(args.vm), *old(args.event_manager), *old(args.vm_resources)),
                (*final(args.vm), *final(args.event_manager), *final(args.vm_resources)),
                state.deep_view(),
                args.instance_id@,
                r,
            ),
    {
        Self::restore_on(
            args.vm,
            args.event_manager,
            args.vm_resources,
            args.instance_id,
            args.restored_from_file,
            state,
        )
    }
}

/// Tells whether a saved network device exposed the metadata service.
fn pci_any_net_exposes_mmds(net_devices: &Vec<VirtioDeviceState<NetState>>) -> (r: bool)
    ensures
        r == exists|i: int|
            0 <= i < net_devices.len() && (
            #[trigger] net_devices.deep_view()[i]).device_state.mmds_ns is Some,
{
    let mut i: usize = 0;
    while i < net_devices.len()
        invariant
            0 <= i <= net_devices.len(),
            forall|j: int|
                0 <= j < i ==> (#[trigger] net_devices.deep_view()[j]).device_state.mmds_ns is None,
        decreases net_devices.len() - i,
    {
        if net_devices[i].device_state.mmds_ns.is_some() {
            assert(net_devices.deep_view()[i as int].device_state.mmds_ns is Some);
            return true;
        }
        i += 1;
    }
    false
}

} // verus!
