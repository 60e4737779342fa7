//! Saving a device manager and restoring what was saved.

use vstd::prelude::*;

use crate::device_manager::legacy_actions;
use crate::device_manager::pci_mngr::{pci_world_of, RestoredPciWorld, SavedPciDevice};
use crate::device_manager::persist::{
    captured_legacy, legacies_applied, world_of, RestoredWorld, SavedDevice,
};
use crate::device_manager::{manager_captured, manager_restored, DeviceManager, DevicePersistError};
use crate::devices::legacy::i8042::EventCounter;
use crate::devices::virtio::pci_transport::CAPABILITY_BAR_SIZE;
use crate::event_manager::EventManager;
use crate::resources::VmResources;
use crate::vstate::bus::overlaps_any;
use crate::vstate::vm::Vm;

verus! {

/// Whether the devices of the registry that `manager` uses can go back on the machine
/// `vm`: they are sound in its guest memory, and after the devices of the platform are
/// back, nothing is on the bus where one of them has its register window or its BAR.
pub open spec fn can_go_back(manager: DeviceManager, pre: (Vm, EventManager, VmResources)) -> bool {
    if manager.pci_enabled() {
        let entries = manager.pci_devices.virtio_devices@;
        &&& crate::device_manager::pci_roundtrip::topology_sound(
            entries,
            pre.0.guest_memory,
            pre.2.deep_view().mem_size_mib,
        )
        &&& forall|i: int|
            0 <= i < entries.len() ==> !overlaps_any(
                pre.0.mmio_bus.ranges(),
                (#[trigger] entries[i]).device.bar_address,
                CAPABILITY_BAR_SIZE,
            )
    } else {
        let entries = manager.mmio_devices.virtio_devices@;
        &&& crate::device_manager::roundtrip::topology_sound(
            entries,
            pre.0.guest_memory,
            pre.2.deep_view().mem_size_mib,
        )
        &&& legacies_applied(
            first_world(pre),
            captured_legacy(manager.mmio_devices.serial, manager.mmio_devices.rtc),
        ) matches Ok(back) && forall|i: int|
            0 <= i < entries.len() ==> !overlaps_any(
                back.bus,
                (#[trigger] entries[i]).device.resources.addr,
                entries[i].device.resources.len,
            )
    }
}

/// The world into which the memory-mapped devices of a snapshot are restored: no device,
/// and the legacy devices asked of the host.
pub open spec fn first_world(pre: (Vm, EventManager, VmResources)) -> RestoredWorld {
    RestoredWorld {
        serial: None,
        rtc: None,
        entries: Seq::empty(),
        bus: pre.0.mmio_bus.ranges(),
        actions: pre.0.actions@ + legacy_actions(),
        subscribers: pre.1.deep_view(),
        resources: pre.2.deep_view(),
    }
}

/// Saving a manager and restoring what was saved gives the devices back.
///
/// Let `manager` be a manager whose devices are brought to rest and can go back on a
/// machine, and let the snapshot of `manager` be restored there with the result `r`. Then
/// the restore fails only where no generation ID could be drawn for a saved generation-ID
/// device. Where it succeeds, the registry that the new manager uses is the one that
/// `manager` used, and it holds, in the order in which they are restored, the devices that
/// the snapshot holds: each saves exactly as the device of `manager` that it was restored
/// from, so it has its type, its identifier and its activation; none is lost, none is
/// added.
pub proof fn lemma_manager_round_trip(
    manager: DeviceManager,
    pre: (Vm, EventManager, VmResources),
    post: (Vm, EventManager, VmResources),
    instance_id: Seq<char>,
    vcpus_exit_evt: EventCounter,
    r: Result<DeviceManager, DevicePersistError>,
)
    requires
        can_go_back(manager, pre),
        manager_restored(pre, post, manager_captured(manager), instance_id, vcpus_exit_evt, r),
    ensures
        manager.acpi_devices.vmgenid is None ==> r is Ok,
        r matches Err(err) ==> err is AcpiRestore,
        r matches Ok(restored) ==> restored.pci_enabled() == manager.pci_enabled(),
        r is Ok && manager.pci_enabled() ==> pci_world_of(
            r->Ok_0.pci_devices,
            post.0,
            post.1,
            post.2,
        ).entries == crate::device_manager::pci_roundtrip::saved_at(
            manager.pci_devices.virtio_devices@,
            crate::device_manager::pci_roundtrip::restore_places(
                manager.pci_devices.virtio_devices@,
            ),
        ),
        r is Ok && !manager.pci_enabled() ==> world_of(
            r->Ok_0.mmio_devices,
            post.0,
            post.1,
            post.2,
        ).entries == crate::device_manager::roundtrip::saved_at(
            manager.mmio_devices.virtio_devices@,
            crate::device_manager::roundtrip::restore_places(manager.mmio_devices.virtio_devices@),
        ),
{
    let mem = pre.0.guest_memory;
    if manager.pci_enabled() {
        let world = RestoredPciWorld {
            entries: Seq::<SavedPciDevice>::empty(),
            slots: crate::device_manager::pci_mngr::empty_slots(),
            bus: pre.0.mmio_bus.ranges(),
            actions: pre.0.actions@ + legacy_actions(),
            subscribers: pre.1.deep_view(),
            resources: pre.2.deep_view(),
        };
        crate::device_manager::pci_roundtrip::lemma_round_trip(
            manager.pci_devices.virtio_devices@,
            world,
            instance_id,
            mem,
        );
    } else {
        let world = first_world(pre);
        assert(world.entries == Seq::<SavedDevice>::empty());
        crate::device_manager::roundtrip::lemma_round_trip(
            manager.mmio_devices.virtio_devices@,
            captured_legacy(manager.mmio_devices.serial, manager.mmio_devices.rtc),
            world,
            instance_id,
            mem,
        );
    }
}

} // verus!
