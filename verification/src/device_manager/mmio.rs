//! The registry of devices behind memory-mapped register windows.

use vstd::prelude::*;

use crate::arch::{DeviceType, MMIO_LEN};
use crate::cmdline::{
    add_virtio_mmio_device, boot_args_with, cmdline_boot_args, cmdline_capacity,
    cmdline_has_room, cmdline_init_args, cmdline_insert, hex_digits, hex_letter, key_value,
    lemma_hex_digits_are_letters, push_hex, valid_key, valid_value, virtio_mmio_hint,
};
use crate::devices::pseudo::BootTimer;
use crate::devices::virtio::transport::{MmioTransport, NOTIFY_REG_OFFSET};
use crate::vstate::bus::{overlaps_any, range_valid, regions_overlap, Bus, BusError};
use crate::vstate::resources::{
    address_allocated, address_allocation, address_fits, address_free, address_placed,
    id_allocated, id_run_free, place_in, serves_from, AllocPolicy,
};
use crate::vstate::vm::{ioevent_actions, HostAction, Vm};

verus! {

/// Address at which the boot timer answers.
pub const BOOT_DEVICE_MEM_START: u64 = 0xc000_0000;

/// Handle under which the boot timer is on the bus.
pub const BOOT_TIMER_HANDLE: u64 = u64::MAX;

/// Handle under which the serial console is on the bus.
pub const SERIAL_HANDLE: u64 = u64::MAX - 1;

/// Handle under which the real-time clock is on the bus.
pub const RTC_HANDLE: u64 = u64::MAX - 2;

/// Why a device could not be put into the registry.
#[derive(Debug)]
pub enum MmioError {
    /// No interrupt line or no address range is left.
    Allocator(vm_allocator::Error),
    /// The bus did not take the register window.
    BusInsert(BusError),
    /// The kernel command line did not take the device.
    Cmdline(linux_loader::cmdline::Error),
    /// The device has no interrupt line.
    InvalidIrqConfig,
    /// There is no such device.
    DeviceNotFound,
}

/// The bus region and the interrupt line of a device.
#[derive(Clone, Copy, Debug, PartialEq, Eq, Structural)]
pub struct MMIODeviceInfo {
    /// First address of the register window.
    pub addr: u64,
    /// Length of the register window.
    pub len: u64,
    /// Interrupt line, if the device has one.
    pub gsi: Option<u32>,
}

/// A device with the resources it was given.
#[derive(Debug)]
pub struct MMIODevice {
    /// Bus region and interrupt line.
    pub resources: MMIODeviceInfo,
    /// The device behind its transport.
    pub inner: MmioTransport,
}

/// One entry of the registry: a device under its type tag and identifier.
#[derive(Debug)]
pub struct MmioEntry {
    /// Device type tag.
    pub device_type: u32,
    /// Identifier, unique among the devices of its type.
    pub device_id: String,
    /// The device.
    pub device: MMIODevice,
}

/// The registry of memory-mapped devices. It owns them, in the order in which they were
/// attached.
#[derive(Debug)]
pub struct MMIODeviceManager {
    /// The virtio devices.
    pub virtio_devices: Vec<MmioEntry>,
    /// The boot timer and its resources, if one is attached.
    pub boot_timer: Option<(MMIODeviceInfo, BootTimer)>,
    /// The resources of the real-time clock, if one is attached.
    pub rtc: Option<MMIODeviceInfo>,
    /// The resources of the serial console, if one is attached.
    pub serial: Option<MMIODeviceInfo>,
}

/// Whether `post` has the boot timer, the real-time clock and the serial console of `pre`.
pub open spec fn same_platform(pre: MMIODeviceManager, post: MMIODeviceManager) -> bool {
    &&& post.boot_timer == pre.boot_timer
    &&& post.rtc == pre.rtc
    &&& post.serial == pre.serial
}

/// Index of the entry of `entries` with the given type and identifier, if there is one.
pub open spec fn position_of(entries: Seq<MmioEntry>, device_type: u32, device_id: Seq<char>) -> Option<
    int,
> {
    if exists|i: int|
        0 <= i < entries.len() && (#[trigger] entries[i]).device_type == device_type
            && entries[i].device_id@ == device_id {
        Some(
            choose|i: int|
                0 <= i < entries.len() && (#[trigger] entries[i]).device_type == device_type
                    && entries[i].device_id@ == device_id,
        )
    } else {
        None
    }
}

/// Whether no two entries of `entries` have the same type and identifier.
pub open spec fn keys_distinct(entries: Seq<MmioEntry>) -> bool {
    forall|i: int, j: int|
        0 <= i < j < entries.len() ==> !((#[trigger] entries[i]).device_type == (
        #[trigger] entries[j]).device_type && entries[i].device_id@ == entries[j].device_id@)
}

/// Whether the register windows of `entries` are valid windows that do not overlap.
pub open spec fn regions_disjoint(entries: Seq<MmioEntry>) -> bool {
    &&& forall|i: int|
        0 <= i < entries.len() ==> window_valid(
            (#[trigger] entries[i]).device.resources.addr,
            entries[i].device.resources.len,
        )
    &&& forall|i: int, j: int|
        0 <= i < j < entries.len() ==> !regions_overlap(
            (#[trigger] entries[i]).device.resources.addr,
            entries[i].device.resources.len,
            (#[trigger] entries[j]).device.resources.addr,
            entries[j].device.resources.len,
        )
}

/// `entries` with `entry` in the place of the entry of the same type and identifier, or
/// behind all entries if there is none.
pub open spec fn upsert(entries: Seq<MmioEntry>, entry: MmioEntry) -> Seq<MmioEntry> {
    match position_of(entries, entry.device_type, entry.device_id@) {
        Some(i) => entries.update(i, entry),
        None => entries.push(entry),
    }
}

/// Whether the `len` addresses from `addr` on can be the register window of a device: a
/// valid range that holds the notification register.
pub open spec fn window_valid(addr: u64, len: u64) -> bool {
    range_valid(addr, len) && len > NOTIFY_REG_OFFSET
}

/// The handle under which the device with the given type and identifier is put on the
/// bus: its place in the registry.
pub open spec fn handle_of(entries: Seq<MmioEntry>, device_type: u32, device_id: Seq<char>) -> u64 {
    match position_of(entries, device_type, device_id) {
        Some(i) => i as u64,
        None => entries.len() as u64,
    }
}

/// What taking the resources of one device does to the allocators of a machine: `info`
/// holds the smallest free legacy interrupt line, if one was asked for, and a register
/// window of [`MMIO_LEN`] bytes, aligned to its length, from the 32-bit window.
pub open spec fn resources_taken(pre: Vm, post: Vm, irq_count: u32, info: MMIODeviceInfo) -> bool {
    &&& irq_count <= 1
    &&& info.len == MMIO_LEN
    &&& irq_count == 0 ==> info.gsi is None && post.resource_allocator.gsi_legacy_allocator
        == pre.resource_allocator.gsi_legacy_allocator
    &&& irq_count == 1 ==> {
        &&& info.gsi is Some
        &&& id_run_free(pre.resource_allocator.gsi_legacy_allocator, info.gsi->0 as int, 1)
        &&& id_allocated(post.resource_allocator.gsi_legacy_allocator) == id_allocated(
            pre.resource_allocator.gsi_legacy_allocator,
        ).insert(info.gsi->0)
    }
    &&& address_allocation(
        pre.resource_allocator.mmio32_memory,
        post.resource_allocator.mmio32_memory,
        MMIO_LEN,
        MMIO_LEN,
        AllocPolicy::FirstMatch,
        Ok(info.addr),
    )
}

/// Whether the allocators of `vm` have what a memory-mapped device needs: a free legacy
/// interrupt line and room for a register window in the 32-bit window.
pub open spec fn mmio_resources_left(vm: Vm) -> bool {
    &&& exists|first: int| id_run_free(vm.resource_allocator.gsi_legacy_allocator, first, 1)
    &&& address_fits(
        vm.resource_allocator.mmio32_memory,
        MMIO_LEN,
        MMIO_LEN,
        AllocPolicy::FirstMatch,
    )
}

/// Whether the register window that the allocator of `vm` hands out next is free on the
/// bus of `vm`.
pub open spec fn next_window_free(vm: Vm) -> bool {
    forall|node: (u64, u64)| #[trigger]
        serves_from(
            vm.resource_allocator.mmio32_memory,
            node,
            MMIO_LEN,
            MMIO_LEN,
            AllocPolicy::FirstMatch,
        ) ==> !overlaps_any(
            vm.mmio_bus.ranges(),
            place_in(node, MMIO_LEN, MMIO_LEN, AllocPolicy::FirstMatch)->0 as u64,
            MMIO_LEN,
        )
}

/// Whether `cmdline` has room for the argument that announces the device which gets the
/// next interrupt line and the next register window of `vm`.
pub open spec fn next_hint_fits(vm: Vm, cmdline: linux_loader::cmdline::Cmdline) -> bool {
    forall|first: int, node: (u64, u64)|
        #![trigger
            id_run_free(vm.resource_allocator.gsi_legacy_allocator, first, 1),
            serves_from(
                vm.resource_allocator.mmio32_memory,
                node,
                MMIO_LEN,
                MMIO_LEN,
                AllocPolicy::FirstMatch,
            )]
        id_run_free(vm.resource_allocator.gsi_legacy_allocator, first, 1) && serves_from(
            vm.resource_allocator.mmio32_memory,
            node,
            MMIO_LEN,
            MMIO_LEN,
            AllocPolicy::FirstMatch,
        ) ==> cmdline_has_room(
            cmdline,
            virtio_mmio_hint(
                MMIO_LEN,
                place_in(node, MMIO_LEN, MMIO_LEN, AllocPolicy::FirstMatch)->0 as u64,
                first as u32,
            ).len(),
        )
}

/// Whether a device can be attached at boot to `vm` and announced on `cmdline`: the
/// allocators have an interrupt line and a register window left, the command line has
/// room for the argument, and the window is free on the bus.
pub open spec fn boot_can_attach(vm: Vm, cmdline: linux_loader::cmdline::Cmdline) -> bool {
    &&& mmio_resources_left(vm)
    &&& next_hint_fits(vm, cmdline)
    &&& next_window_free(vm)
}

/// Why a device could not be attached at boot to `vm` and announced on `cmdline`: each
/// error comes with the first thing that was missing.
pub open spec fn boot_refused(vm: Vm, cmdline: linux_loader::cmdline::Cmdline, err: MmioError) -> bool {
    match err {
        MmioError::Allocator(_) => !mmio_resources_left(vm),
        MmioError::Cmdline(_) => mmio_resources_left(vm) && !next_hint_fits(vm, cmdline),
        MmioError::BusInsert(_) => mmio_resources_left(vm) && next_hint_fits(vm, cmdline)
            && !next_window_free(vm),
        _ => false,
    }
}

/// What is left of the allocators where a memory-mapped device that wants `irq_count`
/// interrupt lines gets no resources: without a free interrupt line nothing is taken;
/// without room for a register window the interrupt line stays taken.
pub open spec fn mmio_resources_refused(pre: Vm, post: Vm, irq_count: u32) -> bool {
    let no_line = irq_count == 1 && !(exists|first: int|
        id_run_free(pre.resource_allocator.gsi_legacy_allocator, first, 1));
    &&& irq_count <= 1
    &&& address_allocated(post.resource_allocator.mmio32_memory) == address_allocated(
        pre.resource_allocator.mmio32_memory,
    )
    &&& address_free(post.resource_allocator.mmio32_memory) == address_free(
        pre.resource_allocator.mmio32_memory,
    )
    &&& if no_line {
        &&& post.resource_allocator.mmio32_memory == pre.resource_allocator.mmio32_memory
        &&& id_allocated(post.resource_allocator.gsi_legacy_allocator) == id_allocated(
            pre.resource_allocator.gsi_legacy_allocator,
        )
    } else {
        &&& !address_fits(
            pre.resource_allocator.mmio32_memory,
            MMIO_LEN,
            MMIO_LEN,
            AllocPolicy::FirstMatch,
        )
        &&& irq_count == 1 ==> exists|gsi: u32|
            id_run_free(pre.resource_allocator.gsi_legacy_allocator, gsi as int, 1)
                && id_allocated(post.resource_allocator.gsi_legacy_allocator) == #[trigger] id_allocated(
                pre.resource_allocator.gsi_legacy_allocator,
            ).insert(gsi)
        &&& irq_count == 0 ==> post.resource_allocator.gsi_legacy_allocator
            == pre.resource_allocator.gsi_legacy_allocator
    }
}

/// Whether `post` is `pre` but for its allocators.
pub open spec fn only_allocators_differ(pre: Vm, post: Vm) -> bool {
    &&& post.guest_memory == pre.guest_memory
    &&& post.mmio_bus == pre.mmio_bus
    &&& post.actions == pre.actions
    &&& post.resource_allocator.gsi_msi_allocator == pre.resource_allocator.gsi_msi_allocator
    &&& post.resource_allocator.mmio64_memory == pre.resource_allocator.mmio64_memory
    &&& post.resource_allocator.system_memory == pre.resource_allocator.system_memory
}

/// What attaching the device `mmio_device` under `device_id` at boot does when it
/// succeeds with the resources `info`: they were taken from the allocators as
/// [`resources_taken`] says, and their register window was free on the bus; the device is
/// in the registry and on the bus with them, the boot arguments announce it, and the host
/// is asked to connect its queues and then its interrupt line.
pub open spec fn boot_attached_with(
    pre: (MMIODeviceManager, Vm, Seq<char>),
    post: (MMIODeviceManager, Vm, Seq<char>),
    device_id: String,
    mmio_device: MmioTransport,
    info: MMIODeviceInfo,
) -> bool {
    &&& resources_taken(pre.1, post.1, 1, info)
    &&& !overlaps_any(pre.1.mmio_bus.ranges(), info.addr, info.len)
    &&& post.2 == boot_args_with(pre.2, virtio_mmio_hint(info.len, info.addr, info.gsi->0))
    &&& post.0.virtio_devices@ == upsert(
        pre.0.virtio_devices@,
        MmioEntry {
            device_type: mmio_device.device.spec_device_type(),
            device_id,
            device: MMIODevice { resources: info, inner: mmio_device },
        },
    )
    &&& post.1.mmio_bus.ranges() == pre.1.mmio_bus.ranges().insert(
        info.addr,
        (
            info.len,
            handle_of(pre.0.virtio_devices@, mmio_device.device.spec_device_type(), device_id@),
        ),
    )
    &&& post.1.actions@ == (pre.1.actions@ + ioevent_actions(
        (info.addr + NOTIFY_REG_OFFSET) as u64,
        mmio_device.device.spec_base().queues.len() as nat,
    )).push(HostAction::RegisterIrq { gsi: info.gsi->0 })
}

/// What attaching the device `mmio_device` under `device_id` at boot does to a registry, a
/// machine and the boot arguments of the kernel command line.
///
/// On success there are resources with which [`boot_attached_with`] holds. Whatever
/// fails, the registry,
/// the bus and the requests to the host are as they were; the boot arguments are as they
/// were unless it was the bus that refused. Without a free interrupt line the call fails.
pub open spec fn boot_attached(
    pre: (MMIODeviceManager, Vm, Seq<char>),
    post: (MMIODeviceManager, Vm, Seq<char>),
    device_id: String,
    mmio_device: MmioTransport,
    r: Result<(), MmioError>,
) -> bool {
    &&& post.0.wf()
    &&& post.0.on_bus(post.1.mmio_bus.ranges())
    &&& post.1.wf()
    &&& same_platform(pre.0, post.0)
    &&& post.1.guest_memory == pre.1.guest_memory
    &&& match r {
        Ok(()) => exists|info: MMIODeviceInfo|
            boot_attached_with(pre, post, device_id, mmio_device, info),
        Err(err) => {
            &&& post.0.virtio_devices@ == pre.0.virtio_devices@
            &&& post.1.mmio_bus.ranges() == pre.1.mmio_bus.ranges()
            &&& post.1.actions@ == pre.1.actions@
            &&& match err {
                MmioError::Allocator(_) => post.2 == pre.2,
                MmioError::Cmdline(_) => post.2 == pre.2,
                MmioError::BusInsert(err) => err == BusError::Overlap,
                _ => false,
            }
        },
    }
    &&& !(exists|first: int| id_run_free(pre.1.resource_allocator.gsi_legacy_allocator, first, 1))
        ==> r is Err
}

/// The next interrupt line and the next register window of a machine are what they are:
/// if `first` is its smallest free line and the allocator serves the next window from
/// `node`, then every smallest free line is `first` and every range that the allocator
/// may serve the window from places it where `node` does.
pub proof fn lemma_next_places_agree(vm: Vm, first: int, node: (u64, u64))
    requires
        id_run_free(vm.resource_allocator.gsi_legacy_allocator, first, 1),
        serves_from(
            vm.resource_allocator.mmio32_memory,
            node,
            MMIO_LEN,
            MMIO_LEN,
            AllocPolicy::FirstMatch,
        ),
    ensures
        forall|other: int| #[trigger]
            id_run_free(vm.resource_allocator.gsi_legacy_allocator, other, 1) ==> other == first,
        forall|other: (u64, u64)| #[trigger]
            serves_from(
                vm.resource_allocator.mmio32_memory,
                other,
                MMIO_LEN,
                MMIO_LEN,
                AllocPolicy::FirstMatch,
            ) ==> place_in(other, MMIO_LEN, MMIO_LEN, AllocPolicy::FirstMatch) == place_in(
                node,
                MMIO_LEN,
                MMIO_LEN,
                AllocPolicy::FirstMatch,
            ),
{
    let a = vm.resource_allocator.gsi_legacy_allocator;
    assert forall|other: int| #[trigger] id_run_free(a, other, 1) implies other == first by {
        if other < first {
            assert(id_allocated(a).contains(other as u32));
            assert(!id_allocated(a).contains(other as u32));
        }
        if first < other {
            assert(id_allocated(a).contains(first as u32));
            assert(!id_allocated(a).contains(first as u32));
        }
    }
    assert forall|other: (u64, u64)| #[trigger]
        serves_from(
            vm.resource_allocator.mmio32_memory,
            other,
            MMIO_LEN,
            MMIO_LEN,
            AllocPolicy::FirstMatch,
        ) implies place_in(other, MMIO_LEN, MMIO_LEN, AllocPolicy::FirstMatch) == place_in(
        node,
        MMIO_LEN,
        MMIO_LEN,
        AllocPolicy::FirstMatch,
    ) by {
        assert(other.0 == node.0);
    }
}

/// A device that is attached at boot gets an interrupt line that no device in the
/// registry has, if the lines of the devices in the registry were handed out by the
/// allocator of the machine: the allocator hands out no line twice.
pub proof fn lemma_new_line_is_new(
    pre: (MMIODeviceManager, Vm, Seq<char>),
    post: (MMIODeviceManager, Vm, Seq<char>),
    device_id: String,
    mmio_device: MmioTransport,
    info: MMIODeviceInfo,
    i: int,
)
    requires
        pre.0.lines_held(pre.1),
        boot_attached_with(pre, post, device_id, mmio_device, info),
        0 <= i < pre.0.virtio_devices.len(),
    ensures
        pre.0.virtio_devices[i].device.resources.gsi->0 != info.gsi->0,
{
    let a = pre.1.resource_allocator.gsi_legacy_allocator;
    assert(id_allocated(a).contains(pre.0.virtio_devices[i].device.resources.gsi->0));
    assert(!id_allocated(a).contains(info.gsi->0));
}

impl MMIODeviceManager {
    /// Whether the interrupt line of every virtio device in the registry is one that the
    /// allocator of `vm` has handed out. Devices that are attached have such lines;
    /// devices that come from a snapshot have the lines that were saved.
    pub open spec fn lines_held(&self, vm: Vm) -> bool {
        forall|i: int|
            0 <= i < self.virtio_devices.len() ==> id_allocated(
                vm.resource_allocator.gsi_legacy_allocator,
            ).contains((#[trigger] self.virtio_devices[i]).device.resources.gsi->0)
    }

    /// Whether every entry is filed under the type of its device and has an interrupt
    /// line, no two entries share type and identifier, and no two register windows overlap.
    pub open spec fn wf(&self) -> bool {
        &&& keys_distinct(self.virtio_devices@)
        &&& regions_disjoint(self.virtio_devices@)
        &&& forall|i: int|
            0 <= i < self.virtio_devices.len() ==> {
                &&& (#[trigger] self.virtio_devices[i]).device_type
                    == self.virtio_devices[i].device.inner.device.spec_device_type()
                &&& self.virtio_devices[i].device.resources.gsi is Some
            }
    }

    /// Whether the register window of every entry is on `ranges`.
    pub open spec fn on_bus(&self, ranges: Map<u64, (u64, u64)>) -> bool {
        forall|i: int|
            0 <= i < self.virtio_devices.len() ==> {
                &&& ranges.contains_key((#[trigger] self.virtio_devices[i]).device.resources.addr)
                &&& ranges[self.virtio_devices[i].device.resources.addr].0
                    == self.virtio_devices[i].device.resources.len
            }
    }

    /// A register window that is free on the bus can be put there without taking a device
    /// of the registry off it.
    pub proof fn lemma_stays_on_bus(
        &self,
        ranges: Map<u64, (u64, u64)>,
        base: u64,
        len: u64,
        handle: u64,
    )
        requires
            self.on_bus(ranges),
            !overlaps_any(ranges, base, len),
            range_valid(base, len),
            regions_disjoint(self.virtio_devices@),
        ensures
            self.on_bus(ranges.insert(base, (len, handle))),
    {
        assert forall|i: int| 0 <= i < self.virtio_devices.len() implies (
        #[trigger] self.virtio_devices[i]).device.resources.addr != base by {
            let addr = self.virtio_devices[i].device.resources.addr;
            assert(ranges.contains_key(addr));
            assert(!regions_overlap(base, len, addr, ranges[addr].0));
        }
    }

    /// An empty registry.
    pub fn new() -> (m: Self)
        ensures
            m.virtio_devices@ == Seq::<MmioEntry>::empty(),
            m.boot_timer is None,
            m.rtc is None,
            m.serial is None,
            m.wf(),
    {
        MMIODeviceManager { virtio_devices: Vec::new(), boot_timer: None, rtc: None, serial: None }
    }

    /// Index of the device with the given type and identifier.
    pub fn position(&self, device_type: u32, device_id: &String) -> (r: Option<usize>)
        ensures
            match r {
                Some(i) => {
                    &&& i < self.virtio_devices.len()
                    &&& self.virtio_devices[i as int].device_type == device_type
                    &&& self.virtio_devices[i as int].device_id@ == device_id@
                    &&& forall|j: int|
                        0 <= j < i ==> !((#[trigger] self.virtio_devices[j]).device_type
                            == device_type && self.virtio_devices[j].device_id@ == device_id@)
                },
                None => forall|j: int|
                    0 <= j < self.virtio_devices.len() ==> !((
                    #[trigger] self.virtio_devices[j]).device_type == device_type
                        && self.virtio_devices[j].device_id@ == device_id@),
            },
            self.wf() ==> (match r {
                Some(i) => Some(i as int),
                None => None,
            }) == position_of(self.virtio_devices@, device_type, device_id@),
    {
        let mut i: usize = 0;
        while i < self.virtio_devices.len()
            invariant
                0 <= i <= self.virtio_devices.len(),
                forall|j: int|
                    0 <= j < i ==> !((#[trigger] self.virtio_devices[j]).device_type == device_type
                        && self.virtio_devices[j].device_id@ == device_id@),
            decreases self.virtio_devices.len() - i,
        {
            if self.virtio_devices[i].device_type == device_type && self.virtio_devices[i].device_id
                == *device_id {
                proof {
                    if self.wf() {
                        let found = position_of(self.virtio_devices@, device_type, device_id@);
                        assert(found is Some);
                        let k = found->0;
                        if k < i {
                        } else if k > i {
                            assert(!(self.virtio_devices[i as int].device_type
                                == self.virtio_devices[k].device_type
                                && self.virtio_devices[i as int].device_id@
                                == self.virtio_devices[k].device_id@));
                        }
                    }
                }
                return Some(i);
            }
            i += 1;
        }
        None
    }

    /// The device with the given type and identifier, if it is in the registry.
    pub fn get_virtio_device(&self, device_type: u32, device_id: &str) -> (r: Option<&MMIODevice>)
        ensures
            match r {
                Some(dev) => exists|i: int|
                    0 <= i < self.virtio_devices.len() && (
                    #[trigger] self.virtio_devices[i]).device_type == device_type
                        && self.virtio_devices[i].device_id@ == device_id@
                        && self.virtio_devices[i].device == *dev,
                None => forall|j: int|
                    0 <= j < self.virtio_devices.len() ==> !((
                    #[trigger] self.virtio_devices[j]).device_type == device_type
                        && self.virtio_devices[j].device_id@ == device_id@),
            },
    {
        let id = String::from_str(device_id);
        match self.position(device_type, &id) {
            Some(i) => Some(&self.virtio_devices[i].device),
            None => None,
        }
    }

    /// Puts `device`, which has its resources, under `device_id` into the registry and on
    /// the bus of `vm`, and asks the host to connect its queues and its interrupt line.
    ///
    /// This succeeds exactly when the device has an interrupt line and its register window
    /// is valid and free on the bus; otherwise nothing changes. A device that is already
    /// registered under the same type and identifier gives way to the new one.
    pub fn register_mmio_virtio(&mut self, vm: &mut Vm, device_id: String, device: MMIODevice) -> (r:
        Result<(), MmioError>)
        requires
            old(self).wf(),
            old(self).on_bus(old(vm).mmio_bus.ranges()),
        ensures
            final(self).wf(),
            final(self).on_bus(final(vm).mmio_bus.ranges()),
            same_platform(*old(self), *final(self)),
            final(vm).guest_memory == old(vm).guest_memory,
            final(vm).resource_allocator == old(vm).resource_allocator,
            match r {
                Ok(()) => {
                    &&& device.resources.gsi is Some
                    &&& window_valid(device.resources.addr, device.resources.len)
                    &&& !overlaps_any(
                        old(vm).mmio_bus.ranges(),
                        device.resources.addr,
                        device.resources.len,
                    )
                    &&& final(self).virtio_devices@ == upsert(
                        old(self).virtio_devices@,
                        MmioEntry {
                            device_type: device.inner.device.spec_device_type(),
                            device_id,
                            device,
                        },
                    )
                    &&& final(vm).mmio_bus.ranges() == old(vm).mmio_bus.ranges().insert(
                        device.resources.addr,
                        (
                            device.resources.len,
                            handle_of(
                                old(self).virtio_devices@,
                                device.inner.device.spec_device_type(),
                                device_id@,
                            ),
                        ),
                    )
                    &&& final(vm).actions@ == (old(vm).actions@ + ioevent_actions(
                        (device.resources.addr + NOTIFY_REG_OFFSET) as u64,
                        device.inner.device.spec_base().queues.len() as nat,
                    )).push(HostAction::RegisterIrq { gsi: device.resources.gsi->0 })
                },
                Err(err) => {
                    &&& final(self).virtio_devices@ == old(self).virtio_devices@
                    &&& final(vm).mmio_bus.ranges() == old(vm).mmio_bus.ranges()
                    &&& final(vm).actions@ == old(vm).actions@
                    &&& match err {
                        MmioError::InvalidIrqConfig => device.resources.gsi is None,
                        MmioError::BusInsert(BusError::InvalidRange) => {
                            &&& device.resources.gsi is Some
                            &&& !window_valid(device.resources.addr, device.resources.len)
                        },
                        MmioError::BusInsert(BusError::Overlap) => {
                            &&& device.resources.gsi is Some
                            &&& window_valid(device.resources.addr, device.resources.len)
                            &&& overlaps_any(
                                old(vm).mmio_bus.ranges(),
                                device.resources.addr,
                                device.resources.len,
                            )
                        },
                        _ => false,
                    }
                },
            },
    {
        let gsi = match device.resources.gsi {
            Some(gsi) => gsi,
            None => {
                return Err(MmioError::InvalidIrqConfig);
            },
        };
        let addr = device.resources.addr;
        let len = device.resources.len;
        if len <= NOTIFY_REG_OFFSET {
            return Err(MmioError::BusInsert(BusError::InvalidRange));
        }
        let device_type = device.inner.device.device_type();
        let place = self.position(device_type, &device_id);
        let handle: u64 = match place {
            Some(i) => i as u64,
            None => self.virtio_devices.len() as u64,
        };
        match vm.mmio_bus.insert(handle, addr, len) {
            Ok(()) => {},
            Err(err) => {
                return Err(MmioError::BusInsert(err));
            },
        }
        vm.register_ioevents(addr + NOTIFY_REG_OFFSET, device.inner.device.num_queues());
        vm.register_irq(gsi);
        let ghost before = self.virtio_devices@;
        let ghost entry = MmioEntry { device_type, device_id, device };
        proof {
            // the new window is free on the bus, on which every old window lies
            assert forall|i: int| 0 <= i < before.len() implies !regions_overlap(
                (#[trigger] before[i]).device.resources.addr,
                before[i].device.resources.len,
                addr,
                len,
            ) by {
                assert(old(vm).mmio_bus.ranges().contains_key(before[i].device.resources.addr));
            }
        }
        match place {
            Some(i) => {
                self.virtio_devices.set(i, MmioEntry { device_type, device_id, device });
            },
            None => {
                self.virtio_devices.push(MmioEntry { device_type, device_id, device });
            },
        }
        proof {
            assert(self.virtio_devices@ == upsert(before, entry));
            let after = self.virtio_devices@;
            assert(regions_disjoint(after));
            assert(keys_distinct(after));
        }
        Ok(())
    }

    /// Takes the resources of one device from the allocators of `vm`: a register window
    /// and, for `irq_count` 1, an interrupt line. More than one line cannot be had.
    ///
    /// The call succeeds exactly when at most one line is asked for, a line is free if one
    /// is asked for, and a register window fits in the 32-bit window. Without a free
    /// interrupt line it takes nothing; without a window the line stays taken.
    pub fn allocate_mmio_resources(&mut self, vm: &mut Vm, irq_count: u32) -> (r: Result<
        MMIODeviceInfo,
        MmioError,
    >)
        requires
            old(vm).wf(),
        ensures
            final(vm).wf(),
            *final(self) == *old(self),
            only_allocators_differ(*old(vm), *final(vm)),
            match r {
                Ok(info) => resources_taken(*old(vm), *final(vm), irq_count, info),
                Err(MmioError::InvalidIrqConfig) => {
                    &&& irq_count > 1
                    &&& final(vm).resource_allocator == old(vm).resource_allocator
                },
                Err(MmioError::Allocator(_)) => mmio_resources_refused(
                    *old(vm),
                    *final(vm),
                    irq_count,
                ),
                Err(_) => false,
            },
            r is Ok <==> irq_count <= 1 && (irq_count == 1 ==> exists|first: int|
                id_run_free(old(vm).resource_allocator.gsi_legacy_allocator, first, 1))
                && address_fits(
                old(vm).resource_allocator.mmio32_memory,
                MMIO_LEN,
                MMIO_LEN,
                AllocPolicy::FirstMatch,
            ),
    {
        if irq_count > 1 {
            return Err(MmioError::InvalidIrqConfig);
        }
        let gsi = if irq_count == 1 {
            match vm.resource_allocator.allocate_gsi_legacy(1) {
                Ok(gsis) => {
                    proof {
                        assert(id_allocated(vm.resource_allocator.gsi_legacy_allocator)
                            =~= id_allocated(
                            old(vm).resource_allocator.gsi_legacy_allocator,
                        ).insert(gsis[0]));
                    }
                    Some(gsis[0])
                },
                Err(err) => {
                    return Err(MmioError::Allocator(err));
                },
            }
        } else {
            None
        };
        let addr = match vm.resource_allocator.allocate_32bit_mmio_memory(
            MMIO_LEN,
            MMIO_LEN,
            AllocPolicy::FirstMatch,
        ) {
            Ok(addr) => addr,
            Err(err) => {
                return Err(MmioError::Allocator(err));
            },
        };
        Ok(MMIODeviceInfo { addr, len: MMIO_LEN, gsi })
    }

    /// Attaches a device at boot: takes an interrupt line and a register window for it,
    /// announces it on the kernel command line, and registers it as
    /// [`Self::register_mmio_virtio`] does.
    ///
    /// The call succeeds exactly when [`boot_can_attach`] holds; [`boot_refused`] says for
    /// each error what was missing. Whatever fails, the registry is left as it was. Without
    /// a free interrupt line the call fails before anything else is touched.
    pub fn register_mmio_virtio_for_boot(
        &mut self,
        vm: &mut Vm,
        device_id: String,
        mmio_device: MmioTransport,
        cmdline: &mut linux_loader::cmdline::Cmdline,
    ) -> (r: Result<(), MmioError>)
        requires
            old(self).wf(),
            old(self).on_bus(old(vm).mmio_bus.ranges()),
            old(vm).wf(),
        ensures
            boot_attached(
                (*old(self), *old(vm), cmdline_boot_args(*old(cmdline))),
                (*final(self), *final(vm), cmdline_boot_args(*final(cmdline))),
                device_id,
                mmio_device,
                r,
            ),
            r is Ok <==> boot_can_attach(*old(vm), *old(cmdline)),
            r matches Err(err) ==> boot_refused(*old(vm), *old(cmdline), err),
            old(self).lines_held(*old(vm)) ==> final(self).lines_held(*final(vm)),
    {
        let r = self.allocate_mmio_resources(vm, 1);
        proof {
            // whatever comes of it, no line is given back
            assert(forall|gsi: u32|
                id_allocated(old(vm).resource_allocator.gsi_legacy_allocator).contains(gsi)
                    ==> #[trigger] id_allocated(vm.resource_allocator.gsi_legacy_allocator).contains(
                    gsi,
                ));
        }
        let info = r?;
        let ghost range = (info.addr, (info.addr + MMIO_LEN - 1) as u64);
        let ghost node = choose|node: (u64, u64)|
            address_placed(
                old(vm).resource_allocator.mmio32_memory,
                vm.resource_allocator.mmio32_memory,
                node,
                MMIO_LEN,
                MMIO_LEN,
                AllocPolicy::FirstMatch,
                range,
            );
        proof {
            assert(serves_from(
                old(vm).resource_allocator.mmio32_memory,
                node,
                MMIO_LEN,
                MMIO_LEN,
                AllocPolicy::FirstMatch,
            ));
            assert(id_run_free(
                old(vm).resource_allocator.gsi_legacy_allocator,
                info.gsi->0 as int,
                1,
            ));
            assert(place_in(node, MMIO_LEN, MMIO_LEN, AllocPolicy::FirstMatch)->0 as u64
                == info.addr);
            lemma_next_places_agree(*old(vm), info.gsi->0 as int, node);
        }
        match add_virtio_mmio_device(cmdline, info.len, info.addr, info.gsi.unwrap()) {
            Ok(()) => {},
            Err(err) => {
                return Err(MmioError::Cmdline(err));
            },
        }
        let ghost taken = *vm;
        let device = MMIODevice { resources: info, inner: mmio_device };
        let r = self.register_mmio_virtio(vm, device_id, device);
        proof {
            if r is Ok {
                assert(boot_attached_with(
                    (*old(self), *old(vm), cmdline_boot_args(*old(cmdline))),
                    (*self, *vm, cmdline_boot_args(*cmdline)),
                    device_id,
                    mmio_device,
                    info,
                ));
            }
        }
        r
    }

    /// Puts the boot timer on `mmio_bus`, at [`BOOT_DEVICE_MEM_START`], if the window is
    /// free there; the timer has no interrupt line.
    pub fn register_mmio_boot_timer(&mut self, mmio_bus: &mut Bus, boot_timer: BootTimer) -> (r:
        Result<(), MmioError>)
        ensures
            final(self).virtio_devices == old(self).virtio_devices,
            final(self).rtc == old(self).rtc,
            final(self).serial == old(self).serial,
            match r {
                Ok(()) => {
                    &&& !overlaps_any(old(mmio_bus).ranges(), BOOT_DEVICE_MEM_START, MMIO_LEN)
                    &&& final(mmio_bus).ranges() == old(mmio_bus).ranges().insert(
                        BOOT_DEVICE_MEM_START,
                        (MMIO_LEN, BOOT_TIMER_HANDLE),
                    )
                    &&& final(self).boot_timer == Some(
                        (
                            MMIODeviceInfo { addr: BOOT_DEVICE_MEM_START, len: MMIO_LEN, gsi: None },
                            boot_timer,
                        ),
                    )
                },
                Err(MmioError::BusInsert(err)) => {
                    &&& err == BusError::Overlap
                    &&& overlaps_any(old(mmio_bus).ranges(), BOOT_DEVICE_MEM_START, MMIO_LEN)
                    &&& final(mmio_bus).ranges() == old(mmio_bus).ranges()
                    &&& final(self).boot_timer == old(self).boot_timer
                },
                Err(_) => false,
            },
    {
        let info = MMIODeviceInfo { addr: BOOT_DEVICE_MEM_START, len: MMIO_LEN, gsi: None };
        match mmio_bus.insert(BOOT_TIMER_HANDLE, info.addr, info.len) {
            Ok(()) => {},
            Err(err) => {
                return Err(MmioError::BusInsert(err));
            },
        }
        self.boot_timer = Some((info, boot_timer));
        Ok(())
    }

    /// Puts the serial console with the resources `info` on the bus of `vm` and asks the
    /// host to connect its interrupt line. This succeeds exactly when the console has an
    /// interrupt line and its register window is a valid range that is free on the bus;
    /// otherwise nothing changes.
    pub fn register_mmio_serial_at(&mut self, vm: &mut Vm, info: MMIODeviceInfo) -> (r: Result<
        (),
        MmioError,
    >)
        requires
            old(self).wf(),
            old(self).on_bus(old(vm).mmio_bus.ranges()),
        ensures
            platform_registered(
                (*old(self), *old(vm)),
                (*final(self), *final(vm)),
                DeviceType::Serial,
                info,
                r,
            ),
    {
        let gsi = match info.gsi {
            Some(gsi) => gsi,
            None => {
                return Err(MmioError::InvalidIrqConfig);
            },
        };
        match vm.mmio_bus.insert(SERIAL_HANDLE, info.addr, info.len) {
            Ok(()) => {},
            Err(err) => {
                return Err(MmioError::BusInsert(err));
            },
        }
        vm.register_irq(gsi);
        self.serial = Some(info);
        proof {
            self.lemma_stays_on_bus(old(vm).mmio_bus.ranges(), info.addr, info.len, SERIAL_HANDLE);
        }
        Ok(())
    }

    /// Puts the real-time clock with the resources `info` on the bus of `vm`. This succeeds
    /// exactly when its register window is a valid range that is free on the bus; otherwise
    /// nothing changes.
    pub fn register_mmio_rtc_at(&mut self, vm: &mut Vm, info: MMIODeviceInfo) -> (r: Result<
        (),
        MmioError,
    >)
        requires
            old(self).wf(),
            old(self).on_bus(old(vm).mmio_bus.ranges()),
        ensures
            platform_registered(
                (*old(self), *old(vm)),
                (*final(self), *final(vm)),
                DeviceType::Rtc,
                info,
                r,
            ),
    {
        match vm.mmio_bus.insert(RTC_HANDLE, info.addr, info.len) {
            Ok(()) => {},
            Err(err) => {
                return Err(MmioError::BusInsert(err));
            },
        }
        self.rtc = Some(info);
        proof {
            self.lemma_stays_on_bus(old(vm).mmio_bus.ranges(), info.addr, info.len, RTC_HANDLE);
        }
        Ok(())
    }

    /// Attaches the serial console: with the resources `device_info_opt`, if they are
    /// given, and else with resources taken from the allocators of `vm`: see
    /// [`platform_attached`].
    pub fn register_mmio_serial(&mut self, vm: &mut Vm, device_info_opt: Option<MMIODeviceInfo>) -> (r:
        Result<(), MmioError>)
        requires
            old(self).wf(),
            old(self).on_bus(old(vm).mmio_bus.ranges()),
            old(vm).wf(),
        ensures
            platform_attached(
                (*old(self), *old(vm)),
                (*final(self), *final(vm)),
                DeviceType::Serial,
                device_info_opt,
                r,
            ),
    {
        let info = match device_info_opt {
            Some(info) => info,
            None => self.allocate_mmio_resources(vm, 1)?,
        };
        let ghost taken = *vm;
        let r = self.register_mmio_serial_at(vm, info);
        r
    }

    /// Attaches the real-time clock: with the resources `device_info_opt`, if they are
    /// given, and else with resources taken from the allocators of `vm`: see
    /// [`platform_attached`].
    pub fn register_mmio_rtc(&mut self, vm: &mut Vm, device_info_opt: Option<MMIODeviceInfo>) -> (r:
        Result<(), MmioError>)
        requires
            old(self).wf(),
            old(self).on_bus(old(vm).mmio_bus.ranges()),
            old(vm).wf(),
        ensures
            platform_attached(
                (*old(self), *old(vm)),
                (*final(self), *final(vm)),
                DeviceType::Rtc,
                device_info_opt,
                r,
            ),
    {
        let info = match device_info_opt {
            Some(info) => info,
            None => self.allocate_mmio_resources(vm, 1)?,
        };
        let ghost taken = *vm;
        let r = self.register_mmio_rtc_at(vm, info);
        r
    }

    /// Tells the kernel on its command line where the serial console is, so that it can
    /// write there early: the argument `earlycon=uart,mmio,0x` and the address of the
    /// console in at least eight hexadecimal digits. This succeeds exactly when there is a
    /// serial console and the command line has room for the argument; else nothing
    /// changes.
    pub fn add_mmio_serial_to_cmdline(&self, cmdline: &mut linux_loader::cmdline::Cmdline) -> (r:
        Result<(), MmioError>)
        ensures
            match r {
                Ok(()) => self.serial matches Some(info) && cmdline_boot_args(*final(cmdline))
                    == boot_args_with(cmdline_boot_args(*old(cmdline)), earlycon_arg(info.addr)),
                Err(err) => {
                    &&& cmdline_boot_args(*final(cmdline)) == cmdline_boot_args(*old(cmdline))
                    &&& match err {
                        MmioError::DeviceNotFound => self.serial is None,
                        MmioError::Cmdline(_) => self.serial is Some,
                        _ => false,
                    }
                },
            },
            r is Ok <==> self.serial is Some && cmdline_has_room(
                *old(cmdline),
                earlycon_arg(self.serial->0.addr).len(),
            ),
            cmdline_init_args(*final(cmdline)) == cmdline_init_args(*old(cmdline)),
            cmdline_capacity(*final(cmdline)) == cmdline_capacity(*old(cmdline)),
    {
        let info = match self.serial {
            Some(info) => info,
            None => {
                return Err(MmioError::DeviceNotFound);
            },
        };
        let mut value = String::from_str("uart,mmio,0x");
        push_hex(&mut value, info.addr, 8);
        proof {
            lemma_earlycon_valid(info.addr);
        }
        match cmdline_insert(cmdline, "earlycon", value.as_str()) {
            Ok(()) => Ok(()),
            Err(err) => Err(MmioError::Cmdline(err)),
        }
    }
}

/// The argument for a serial console is one that a command line takes: its key and its
/// value are valid.
pub proof fn lemma_earlycon_valid(addr: u64)
    ensures
        valid_key("earlycon"@),
        valid_value("uart,mmio,0x"@ + hex_digits(addr as nat, 8)),
{
    reveal_strlit("earlycon");
    reveal_strlit("uart,mmio,0x");
    let digits = hex_digits(addr as nat, 8);
    let value = "uart,mmio,0x"@ + digits;
    lemma_hex_digits_are_letters(addr as nat, 8);
    assert forall|i: int| 0 <= i < value.len() implies 0x20 <= (#[trigger] value[i]) as u32 <= 0x7e
        && value[i] != ' ' && value[i] != '\u{22}' by {
        if i >= 12 {
            assert(value[i] == digits[i - 12]);
            assert(hex_letter(digits[i - 12]));
        }
    }
    assert(!value.contains(' '));
    assert(!"earlycon"@.contains(' '));
    assert(!"earlycon"@.contains('='));
}

/// The argument that tells the kernel of a serial console at `addr`.
pub open spec fn earlycon_arg(addr: u64) -> Seq<char> {
    key_value("earlycon"@, "uart,mmio,0x"@ + hex_digits(addr as nat, 8))
}

/// The handle under which the serial console or the real-time clock is on the bus.
pub open spec fn platform_handle(device: DeviceType) -> u64 {
    if device == DeviceType::Serial {
        SERIAL_HANDLE
    } else {
        RTC_HANDLE
    }
}

/// What putting the serial console or the real-time clock, whichever `device` names, with
/// the resources `info` on the bus does to a registry and to the bus and the requests of a
/// machine.
///
/// It succeeds exactly when the register window is a valid range that is free on the bus
/// and, for the serial console, the device has an interrupt line. Then the window is on
/// the bus, the registry knows the resources of the device, and for the serial console the
/// host is asked to connect the interrupt line. Otherwise nothing changes.
pub open spec fn platform_effect(
    pre: (MMIODeviceManager, Vm),
    post: (MMIODeviceManager, Vm),
    device: DeviceType,
    info: MMIODeviceInfo,
    r: Result<(), MmioError>,
) -> bool {
    let serial = device == DeviceType::Serial;
    &&& post.0.wf()
    &&& post.0.on_bus(post.1.mmio_bus.ranges())
    &&& post.0.virtio_devices == pre.0.virtio_devices
    &&& post.0.boot_timer == pre.0.boot_timer
    &&& post.1.guest_memory == pre.1.guest_memory
    &&& match r {
        Ok(()) => {
            &&& serial ==> info.gsi is Some
            &&& range_valid(info.addr, info.len)
            &&& !overlaps_any(pre.1.mmio_bus.ranges(), info.addr, info.len)
            &&& post.1.mmio_bus.ranges() == pre.1.mmio_bus.ranges().insert(
                info.addr,
                (info.len, platform_handle(device)),
            )
            &&& post.1.actions@ == (if serial {
                pre.1.actions@.push(HostAction::RegisterIrq { gsi: info.gsi->0 })
            } else {
                pre.1.actions@
            })
            &&& post.0.serial == (if serial {
                Some(info)
            } else {
                pre.0.serial
            })
            &&& post.0.rtc == (if serial {
                pre.0.rtc
            } else {
                Some(info)
            })
        },
        Err(err) => {
            &&& post.0 == pre.0
            &&& post.1.mmio_bus.ranges() == pre.1.mmio_bus.ranges()
            &&& post.1.actions@ == pre.1.actions@
            &&& match err {
                MmioError::InvalidIrqConfig => serial && info.gsi is None,
                MmioError::BusInsert(BusError::InvalidRange) => {
                    &&& serial ==> info.gsi is Some
                    &&& !range_valid(info.addr, info.len)
                },
                MmioError::BusInsert(BusError::Overlap) => {
                    &&& serial ==> info.gsi is Some
                    &&& range_valid(info.addr, info.len)
                    &&& overlaps_any(pre.1.mmio_bus.ranges(), info.addr, info.len)
                },
                _ => false,
            }
        },
    }
}

/// What putting the serial console or the real-time clock with the resources `info` on
/// the bus does to a registry and a machine: what [`platform_effect`] says, and nothing to
/// the allocators.
pub open spec fn platform_registered(
    pre: (MMIODeviceManager, Vm),
    post: (MMIODeviceManager, Vm),
    device: DeviceType,
    info: MMIODeviceInfo,
    r: Result<(), MmioError>,
) -> bool {
    &&& post.1.resource_allocator == pre.1.resource_allocator
    &&& platform_effect(pre, post, device, info, r)
}

/// The resources that `manager` knows of the serial console or the real-time clock,
/// whichever `device` names.
pub open spec fn platform_info(manager: MMIODeviceManager, device: DeviceType) -> Option<
    MMIODeviceInfo,
> {
    if device == DeviceType::Serial {
        manager.serial
    } else {
        manager.rtc
    }
}

/// What attaching the serial console or the real-time clock does to a registry and a
/// machine. With resources that are given it is what [`platform_registered`] says. Else
/// the device gets the smallest free interrupt line and a register window from the
/// allocators, as [`resources_taken`] says, and goes on the bus with them as
/// [`platform_effect`] says. That succeeds exactly when the allocators have a line and a
/// window left and the window is free on the bus; else the registry, the bus and the
/// requests to the host are as they were.
pub open spec fn platform_attached(
    pre: (MMIODeviceManager, Vm),
    post: (MMIODeviceManager, Vm),
    device: DeviceType,
    device_info_opt: Option<MMIODeviceInfo>,
    r: Result<(), MmioError>,
) -> bool {
    match device_info_opt {
        Some(info) => post.1.wf() == pre.1.wf() && platform_registered(pre, post, device, info, r),
        None => {
            &&& post.1.wf()
            &&& post.0.wf()
            &&& post.0.on_bus(post.1.mmio_bus.ranges())
            &&& post.1.guest_memory == pre.1.guest_memory
            &&& match r {
                Ok(()) => {
                    &&& platform_info(post.0, device) matches Some(info)
                    &&& resources_taken(pre.1, post.1, 1, info)
                    &&& platform_effect(pre, post, device, info, r)
                },
                Err(err) => {
                    &&& post.0 == pre.0
                    &&& post.1.mmio_bus.ranges() == pre.1.mmio_bus.ranges()
                    &&& post.1.actions@ == pre.1.actions@
                    &&& match err {
                        MmioError::Allocator(_) => !mmio_resources_left(pre.1),
                        MmioError::BusInsert(err) => err == BusError::Overlap
                            && mmio_resources_left(pre.1) && !next_window_free(pre.1),
                        _ => false,
                    }
                },
            }
            &&& r is Ok <==> mmio_resources_left(pre.1) && next_window_free(pre.1)
        },
    }
}

} // verus!
