//! What a snapshot of the registry of PCI devices holds, and what restoring it gives back.

use vstd::prelude::*;

use crate::device_manager::persist::{kind_checked, kind_saved, MmdsState};
use crate::device_manager::pci_mngr::{
    pci_all_quiesced, bars_disjoint, pci_already_held, pci_as_saved, pci_balloon_item, pci_block_items,
    pci_captured, pci_captured_blocks, pci_captured_mmds, pci_captured_nets, pci_entropy_item,
    pci_item_applied, pci_item_registered, pci_items_applied, pci_keys_distinct,
    empty_slots, pci_mmds_configured, pci_net_items, pci_option_applied, pci_restore_outcome,
    pci_vsock_item, slot_of, PciDevicesStateView, PciEntry, PciManagerError, RestoredPciWorld,
    SavedPciDevice,
};
use crate::device_manager::roundtrip::{
    apart, device_sound, lemma_apart_from_both, lemma_quiesced_device_is_sound, place_seq,
};
use crate::devices::pci::NUM_DEVICE_IDS;
use crate::devices::virtio::device::VirtioDevice;
use crate::devices::virtio::pci_transport::CAPABILITY_BAR_SIZE;
use crate::devices::virtio::{TYPE_BALLOON, TYPE_BLOCK, TYPE_NET, TYPE_RNG, TYPE_VSOCK};
use crate::vstate::bus::{overlaps_any, range_valid, regions_overlap};
use crate::vstate::memory::GuestMemory;

verus! {

/// The record of the metadata service that the entry `e` gives to a snapshot: that of
/// the service that its network device exposes, if it is one and exposes one.
pub open spec fn exposed_mmds(e: PciEntry) -> Option<MmdsState> {
    match e.device.device {
        VirtioDevice::Net(dev) => match dev.mmds_ns {
            Some(ns) => Some(MmdsState { version: ns.mmds.version, imds_compat: ns.mmds.imds_compat }),
            None => None,
        },
        _ => None,
    }
}

/// Whether a snapshot holds the device of `e`: every device but a block device that a
/// process outside this one serves.
pub open spec fn snapshotted(e: PciEntry) -> bool {
    !(e.device.device matches VirtioDevice::Block(dev) && dev.vhost_user)
}

/// However many network devices expose the metadata service, a snapshot holds one record
/// of it: that of the first device of the registry that exposes it. Without such a device
/// it holds none.
pub proof fn lemma_mmds_record_is_first_exposed(entries: Seq<PciEntry>)
    ensures
        match pci_captured_mmds(entries) {
            Some(record) => exists|i: int|
                0 <= i < entries.len() && exposed_mmds(#[trigger] entries[i]) == Some(record)
                    && forall|j: int| 0 <= j < i ==> exposed_mmds(#[trigger] entries[j]) is None,
            None => forall|i: int|
                0 <= i < entries.len() ==> exposed_mmds(#[trigger] entries[i]) is None,
        },
    decreases entries.len(),
{
    if entries.len() > 0 {
        let front = entries.drop_last();
        lemma_mmds_record_is_first_exposed(front);
        match pci_captured_mmds(front) {
            Some(record) => {
                let i = choose|i: int|
                    0 <= i < front.len() && exposed_mmds(#[trigger] front[i]) == Some(record)
                        && forall|j: int| 0 <= j < i ==> exposed_mmds(#[trigger] front[j]) is None;
                assert(entries[i] == front[i]);
                assert forall|j: int| 0 <= j < i implies exposed_mmds(
                    #[trigger] entries[j],
                ) is None by {
                    assert(entries[j] == front[j]);
                }
            },
            None => {
                assert forall|j: int| 0 <= j < entries.len() - 1 implies exposed_mmds(
                    #[trigger] entries[j],
                ) is None by {
                    assert(entries[j] == front[j]);
                }
                if exposed_mmds(entries.last()) is Some {
                    assert(entries[entries.len() - 1] == entries.last());
                }
            },
        }
    }
}

/// The places in the registry of the block devices that a snapshot holds.
pub open spec fn block_places(entries: Seq<PciEntry>) -> Seq<int>
    decreases entries.len(),
{
    if entries.len() == 0 {
        Seq::empty()
    } else {
        let rest = block_places(entries.drop_last());
        match entries.last().device.device {
            VirtioDevice::Block(dev) => if dev.vhost_user {
                rest
            } else {
                rest.push(entries.len() - 1)
            },
            _ => rest,
        }
    }
}

/// The places in the registry of the network devices.
pub open spec fn net_places(entries: Seq<PciEntry>) -> Seq<int>
    decreases entries.len(),
{
    if entries.len() == 0 {
        Seq::empty()
    } else {
        let rest = net_places(entries.drop_last());
        match entries.last().device.device {
            VirtioDevice::Net(_) => rest.push(entries.len() - 1),
            _ => rest,
        }
    }
}

/// The place in the registry of the last device of the type `device_type`.
pub open spec fn last_place(entries: Seq<PciEntry>, device_type: u32) -> Option<int>
    decreases entries.len(),
{
    if entries.len() == 0 {
        None
    } else if entries.last().device.device.spec_device_type() == device_type {
        Some(entries.len() - 1)
    } else {
        last_place(entries.drop_last(), device_type)
    }
}

/// Whether `places` are places of `entries`, in rising order.
pub open spec fn rising_places(places: Seq<int>, entries: Seq<PciEntry>) -> bool {
    &&& forall|k: int| 0 <= k < places.len() ==> 0 <= #[trigger] places[k] < entries.len()
    &&& forall|k: int, l: int| 0 <= k < l < places.len() ==> places[k] < places[l]
}

/// The block devices of a snapshot are the block devices of the registry that this
/// process serves, in the order of the registry, and no others: a block device that a
/// process outside this one serves is not among them.
pub proof fn lemma_captured_blocks(entries: Seq<PciEntry>)
    ensures
        rising_places(block_places(entries), entries),
        pci_captured_blocks(entries).len() == block_places(entries).len(),
        forall|k: int|
            0 <= k < block_places(entries).len() ==> {
                let e = entries[#[trigger] block_places(entries)[k]];
                &&& e.device.device matches VirtioDevice::Block(dev)
                &&& !dev.vhost_user
                &&& SavedPciDevice::Block(pci_captured_blocks(entries)[k]) == pci_as_saved(e)
            },
        forall|i: int|
            0 <= i < entries.len() && (#[trigger] entries[i]).device.device is Block
                && snapshotted(entries[i]) ==> block_places(entries).contains(i),
    decreases entries.len(),
{
    if entries.len() > 0 {
        let front = entries.drop_last();
        lemma_captured_blocks(front);
        let places = block_places(entries);
        let old_places = block_places(front);
        assert forall|k: int| 0 <= k < old_places.len() implies entries[#[trigger] old_places[k]]
            == front[old_places[k]] by {}
        assert forall|k: int| 0 <= k < places.len() implies {
            let e = entries[#[trigger] places[k]];
            &&& e.device.device matches VirtioDevice::Block(dev)
            &&& !dev.vhost_user
            &&& SavedPciDevice::Block(pci_captured_blocks(entries)[k]) == pci_as_saved(e)
        } by {
            if k < old_places.len() {
                assert(places[k] == old_places[k]);
                assert(entries[old_places[k]] == front[old_places[k]]);
            }
        }
        assert forall|i: int|
            0 <= i < entries.len() && (#[trigger] entries[i]).device.device is Block
                && snapshotted(entries[i]) implies places.contains(i) by {
            if i < entries.len() - 1 {
                assert(entries[i] == front[i]);
                let k = choose|k: int| 0 <= k < old_places.len() && old_places[k] == i;
                assert(places[k] == i);
            } else {
                assert(places[places.len() - 1] == i);
            }
        }
    }
}

/// The network devices of a snapshot are the network devices of the registry, in the
/// order of the registry.
pub proof fn lemma_captured_nets(entries: Seq<PciEntry>)
    ensures
        rising_places(net_places(entries), entries),
        pci_captured_nets(entries).len() == net_places(entries).len(),
        forall|k: int|
            0 <= k < net_places(entries).len() ==> {
                let e = entries[#[trigger] net_places(entries)[k]];
                &&& e.device.device is Net
                &&& SavedPciDevice::Net(pci_captured_nets(entries)[k]) == pci_as_saved(e)
            },
        forall|i: int|
            0 <= i < entries.len() && (#[trigger] entries[i]).device.device is Net
                ==> net_places(entries).contains(i),
    decreases entries.len(),
{
    if entries.len() > 0 {
        let front = entries.drop_last();
        lemma_captured_nets(front);
        let places = net_places(entries);
        let old_places = net_places(front);
        assert forall|k: int| 0 <= k < places.len() implies {
            let e = entries[#[trigger] places[k]];
            &&& e.device.device is Net
            &&& SavedPciDevice::Net(pci_captured_nets(entries)[k]) == pci_as_saved(e)
        } by {
            if k < old_places.len() {
                assert(places[k] == old_places[k]);
                assert(entries[old_places[k]] == front[old_places[k]]);
            }
        }
        assert forall|i: int|
            0 <= i < entries.len() && (#[trigger] entries[i]).device.device is Net implies places.contains(
            i,
        ) by {
            if i < entries.len() - 1 {
                assert(entries[i] == front[i]);
                let k = choose|k: int| 0 <= k < old_places.len() && old_places[k] == i;
                assert(places[k] == i);
            } else {
                assert(places[places.len() - 1] == i);
            }
        }
    }
}

/// The last place of a type is a place of a device of that type, and no device of the
/// type comes behind it; without a last place there is no device of the type.
pub proof fn lemma_last_place(entries: Seq<PciEntry>, device_type: u32)
    ensures
        match last_place(entries, device_type) {
            Some(i) => {
                &&& 0 <= i < entries.len()
                &&& entries[i].device.device.spec_device_type() == device_type
                &&& forall|j: int|
                    i < j < entries.len() ==> (
                    #[trigger] entries[j]).device.device.spec_device_type() != device_type
            },
            None => forall|j: int|
                0 <= j < entries.len() ==> (
                #[trigger] entries[j]).device.device.spec_device_type() != device_type,
        },
    decreases entries.len(),
{
    if entries.len() > 0 {
        if entries.last().device.device.spec_device_type() != device_type {
            let front = entries.drop_last();
            lemma_last_place(front, device_type);
            assert forall|j: int| 0 <= j < front.len() implies entries[j] == #[trigger] front[j] by {}
            match last_place(front, device_type) {
                Some(i) => {
                    assert(entries[i] == front[i]);
                    assert forall|j: int| i < j < entries.len() implies (
                    #[trigger] entries[j]).device.device.spec_device_type()
                        != device_type by {
                        if j < front.len() {
                            assert(entries[j] == front[j]);
                        }
                    }
                },
                None => {
                    assert forall|j: int| 0 <= j < entries.len() implies (
                    #[trigger] entries[j]).device.device.spec_device_type()
                        != device_type by {
                        if j < front.len() {
                            assert(entries[j] == front[j]);
                        }
                    }
                },
            }
        }
    }
}

/// The balloon, vsock and entropy device of a snapshot are the last devices of their
/// types in the registry.
pub proof fn lemma_captured_singletons(entries: Seq<PciEntry>)
    ensures
        pci_balloon_item(pci_captured(entries)) == (match last_place(entries, TYPE_BALLOON) {
            Some(i) => Some(pci_as_saved(entries[i])),
            None => None,
        }),
        pci_vsock_item(pci_captured(entries)) == (match last_place(entries, TYPE_VSOCK) {
            Some(i) => Some(pci_as_saved(entries[i])),
            None => None,
        }),
        pci_entropy_item(pci_captured(entries)) == (match last_place(entries, TYPE_RNG) {
            Some(i) => Some(pci_as_saved(entries[i])),
            None => None,
        }),
    decreases entries.len(),
{
    if entries.len() > 0 {
        let front = entries.drop_last();
        lemma_captured_singletons(front);
        lemma_last_place(front, TYPE_BALLOON);
        lemma_last_place(front, TYPE_VSOCK);
        lemma_last_place(front, TYPE_RNG);
        if last_place(front, TYPE_BALLOON) is Some {
            assert(entries[last_place(front, TYPE_BALLOON)->0] == front[last_place(
                front,
                TYPE_BALLOON,
            )->0]);
        }
        if last_place(front, TYPE_VSOCK) is Some {
            assert(entries[last_place(front, TYPE_VSOCK)->0] == front[last_place(
                front,
                TYPE_VSOCK,
            )->0]);
        }
        if last_place(front, TYPE_RNG) is Some {
            assert(entries[last_place(front, TYPE_RNG)->0] == front[last_place(front, TYPE_RNG)->0]);
        }
    }
}

/// Whether `entries` are the devices of a valid registry: no two with the same type and
/// identifier, in the same slot or with overlapping BARs, each filed under the type and
/// identifier of its device, in a slot that is not the one of the root, activated exactly
/// if its transport says so, and sound if a snapshot holds it.
pub open spec fn topology_sound(entries: Seq<PciEntry>, mem: GuestMemory, mem_size_mib: u32) -> bool {
    &&& pci_keys_distinct(entries)
    &&& bars_disjoint(entries)
    &&& forall|i: int, j: int|
        0 <= i < j < entries.len() ==> slot_of(#[trigger] entries[i]) != slot_of(
            #[trigger] entries[j],
        )
    &&& forall|i: int|
        0 <= i < entries.len() ==> {
            &&& (#[trigger] entries[i]).device_type == entries[i].device.device.spec_device_type()
            &&& entries[i].device.id@ == entries[i].device_id@
            &&& entries[i].device.device_activated == entries[i].device.device.spec_is_activated()
            &&& 1 <= slot_of(entries[i])
            &&& snapshotted(entries[i]) ==> device_sound(
                entries[i].device.device,
                mem,
                mem_size_mib,
            )
        }
}

/// Whether `world` holds, besides the root of the PCI bus and what was on the bus `bus`
/// of memory-mapped registers before, exactly devices of `entries` whose places are in
/// `done`.
pub open spec fn world_covers(
    world: RestoredPciWorld,
    entries: Seq<PciEntry>,
    done: Set<int>,
    bus: Map<u64, (u64, u64)>,
) -> bool {
    &&& world.slots.len() == NUM_DEVICE_IDS
    &&& forall|x: int|
        1 <= x < world.slots.len() && #[trigger] world.slots[x] ==> exists|d: int|
            0 <= d < entries.len() && done.contains(d) && slot_of(#[trigger] entries[d]) == x
    &&& forall|j: int|
        0 <= j < world.entries.len() ==> exists|d: int|
            0 <= d < entries.len() && done.contains(d) && #[trigger] world.entries[j]
                == pci_as_saved(#[trigger] entries[d])
    &&& forall|b: u64| #[trigger]
        world.bus.contains_key(b) ==> (bus.contains_key(b) && bus[b].0 == world.bus[b].0)
            || exists|d: int|
            0 <= d < entries.len() && done.contains(d) && b == (
            #[trigger] entries[d]).device.bar_address && world.bus[b].0 == CAPABILITY_BAR_SIZE
    &&& forall|i: int|
        0 <= i < entries.len() ==> !overlaps_any(
            bus,
            (#[trigger] entries[i]).device.bar_address,
            CAPABILITY_BAR_SIZE,
        )
}

/// Whether the network device of `e`, if it is one and exposes the metadata service,
/// finds the service in `world`.
pub open spec fn finds_mmds(world: RestoredPciWorld, e: PciEntry) -> bool {
    exposed_mmds(e) is Some ==> world.resources.mmds is Some
}

/// A device of a sound registry that is not yet in the world is restored from its own
/// snapshot: it comes behind the devices of the world, and the world covers it then.
pub proof fn lemma_restores(
    world: RestoredPciWorld,
    entries: Seq<PciEntry>,
    i: int,
    done: Set<int>,
    bus: Map<u64, (u64, u64)>,
    mem: GuestMemory,
)
    requires
        topology_sound(entries, mem, world.resources.mem_size_mib),
        world_covers(world, entries, done, bus),
        0 <= i < entries.len(),
        !done.contains(i),
        snapshotted(entries[i]),
        finds_mmds(world, entries[i]),
    ensures
        pci_item_applied(world, pci_as_saved(entries[i]), mem) matches Ok(next) && {
            &&& next.entries == world.entries.push(pci_as_saved(entries[i]))
            &&& world_covers(next, entries, done.insert(i), bus)
            &&& next.resources.mmds == world.resources.mmds
            &&& next.resources.mem_size_mib == world.resources.mem_size_mib
        },
{
    let e = entries[i];
    let item = pci_as_saved(e);
    let bar = e.device.bar_address;
    assert(item.kind_state() == kind_saved(e.device.device));
    assert(item.normal() == item);
    assert(item.slot() == slot_of(e));
    assert(kind_checked(item.kind_state(), world.resources) is Ok);
    let resources = kind_checked(item.kind_state(), world.resources)->Ok_0;
    let checked = RestoredPciWorld { resources, ..world };
    assert(!pci_already_held(checked.entries, item)) by {
        if pci_already_held(checked.entries, item) {
            let j = choose|j: int|
                0 <= j < world.entries.len() && (#[trigger] world.entries[j]).device_type()
                    == item.device_type() && world.entries[j].device_id() == item.device_id();
            let d = choose|d: int|
                0 <= d < entries.len() && done.contains(d) && #[trigger] world.entries[j]
                    == pci_as_saved(#[trigger] entries[d]);
            assert(entries[d].device_type == entries[i].device_type);
            assert(entries[d].device_id@ == entries[i].device_id@);
            if d < i {
                assert(!(entries[d].device_type == entries[i].device_type && entries[d].device_id@
                    == entries[i].device_id@));
            } else {
                assert(!(entries[i].device_type == entries[d].device_type && entries[i].device_id@
                    == entries[d].device_id@));
            }
        }
    }
    assert(!world.slots[item.slot()]) by {
        if world.slots[item.slot()] {
            let d = choose|d: int|
                0 <= d < entries.len() && done.contains(d) && slot_of(#[trigger] entries[d])
                    == item.slot();
            if d < i {
                assert(slot_of(entries[d]) != slot_of(entries[i]));
            } else {
                assert(slot_of(entries[i]) != slot_of(entries[d]));
            }
        }
    }
    assert(!overlaps_any(world.bus, bar, CAPABILITY_BAR_SIZE)) by {
        if overlaps_any(world.bus, bar, CAPABILITY_BAR_SIZE) {
            let b = choose|b: u64| #[trigger]
                world.bus.contains_key(b) && regions_overlap(
                    bar,
                    CAPABILITY_BAR_SIZE,
                    b,
                    world.bus[b].0,
                );
            if bus.contains_key(b) && bus[b].0 == world.bus[b].0 {
                assert(overlaps_any(bus, bar, CAPABILITY_BAR_SIZE));
            } else {
                let d = choose|d: int|
                    0 <= d < entries.len() && done.contains(d) && b == (
                    #[trigger] entries[d]).device.bar_address && world.bus[b].0
                        == CAPABILITY_BAR_SIZE;
                if d < i {
                    assert(!regions_overlap(
                        entries[d].device.bar_address,
                        CAPABILITY_BAR_SIZE,
                        entries[i].device.bar_address,
                        CAPABILITY_BAR_SIZE,
                    ));
                } else {
                    assert(!regions_overlap(
                        entries[i].device.bar_address,
                        CAPABILITY_BAR_SIZE,
                        entries[d].device.bar_address,
                        CAPABILITY_BAR_SIZE,
                    ));
                }
            }
        }
    }
    assert(range_valid(bar, CAPABILITY_BAR_SIZE));
    assert(pci_item_registered(checked, item, mem) is Ok);
    let next = pci_item_registered(checked, item, mem)->Ok_0;
    assert(world_covers(next, entries, done.insert(i), bus)) by {
        assert forall|x: int| 1 <= x < next.slots.len() && #[trigger] next.slots[x] implies exists|
            d: int,
        |
            0 <= d < entries.len() && done.insert(i).contains(d) && slot_of(#[trigger] entries[d])
                == x by {
            if x == item.slot() {
                assert(done.insert(i).contains(i) && slot_of(entries[i]) == x);
            } else {
                assert(world.slots[x]);
                let d = choose|d: int|
                    0 <= d < entries.len() && done.contains(d) && slot_of(#[trigger] entries[d])
                        == x;
                assert(done.insert(i).contains(d) && slot_of(entries[d]) == x);
            }
        }
        assert forall|j: int| 0 <= j < next.entries.len() implies exists|d: int|
            0 <= d < entries.len() && done.insert(i).contains(d) && #[trigger] next.entries[j]
                == pci_as_saved(#[trigger] entries[d]) by {
            if j < world.entries.len() {
                let d = choose|d: int|
                    0 <= d < entries.len() && done.contains(d) && #[trigger] world.entries[j]
                        == pci_as_saved(#[trigger] entries[d]);
                assert(done.insert(i).contains(d) && next.entries[j] == pci_as_saved(entries[d]));
            } else {
                assert(done.insert(i).contains(i) && next.entries[j] == pci_as_saved(entries[i]));
            }
        }
        assert forall|b: u64| #[trigger] next.bus.contains_key(b) implies (bus.contains_key(b)
            && bus[b].0 == next.bus[b].0) || exists|d: int|
            0 <= d < entries.len() && done.insert(i).contains(d) && b == (
            #[trigger] entries[d]).device.bar_address && next.bus[b].0 == CAPABILITY_BAR_SIZE by {
            if b == bar {
                assert(done.insert(i).contains(i) && b == entries[i].device.bar_address);
            } else {
                assert(world.bus.contains_key(b));
                if !(bus.contains_key(b) && bus[b].0 == world.bus[b].0) {
                    let d = choose|d: int|
                        0 <= d < entries.len() && done.contains(d) && b == (
                        #[trigger] entries[d]).device.bar_address && world.bus[b].0
                            == CAPABILITY_BAR_SIZE;
                    assert(done.insert(i).contains(d) && b == entries[d].device.bar_address);
                }
            }
        }
    }
}

/// The devices at `places` in the form in which a snapshot holds them.
pub open spec fn saved_at(entries: Seq<PciEntry>, places: Seq<int>) -> Seq<SavedPciDevice> {
    places.map_values(|p: int| pci_as_saved(entries[p]))
}

/// Whether the devices at `places` can be restored into `world`, which holds the devices
/// at `done`: the places are places of different devices that a snapshot holds and that
/// are not in the world, and their network devices find the metadata service.
pub open spec fn restorable_places(
    world: RestoredPciWorld,
    entries: Seq<PciEntry>,
    places: Seq<int>,
    done: Set<int>,
) -> bool {
    &&& forall|k: int|
        0 <= k < places.len() ==> {
            &&& 0 <= #[trigger] places[k] < entries.len()
            &&& !done.contains(places[k])
            &&& snapshotted(entries[places[k]])
            &&& finds_mmds(world, entries[places[k]])
        }
    &&& forall|k: int, l: int| 0 <= k < l < places.len() ==> places[k] != places[l]
}

/// Devices of a sound registry that are not yet in the world are restored from their own
/// snapshot one after the other: they come behind the devices of the world, in their
/// order, and the world covers them then.
pub proof fn lemma_restores_all(
    world: RestoredPciWorld,
    entries: Seq<PciEntry>,
    places: Seq<int>,
    done: Set<int>,
    bus: Map<u64, (u64, u64)>,
    mem: GuestMemory,
)
    requires
        topology_sound(entries, mem, world.resources.mem_size_mib),
        world_covers(world, entries, done, bus),
        restorable_places(world, entries, places, done),
    ensures
        pci_items_applied(world, saved_at(entries, places), mem) matches Ok(next) && {
            &&& next.entries == world.entries + saved_at(entries, places)
            &&& world_covers(next, entries, done.union(places.to_set()), bus)
            &&& next.resources.mmds == world.resources.mmds
            &&& next.resources.mem_size_mib == world.resources.mem_size_mib
        },
    decreases places.len(),
{
    let items = saved_at(entries, places);
    if places.len() == 0 {
        assert(world.entries + items =~= world.entries);
        assert(done.union(places.to_set()) =~= done);
    } else {
        let first = places[0];
        lemma_restores(world, entries, first, done, bus, mem);
        let mid = pci_item_applied(world, pci_as_saved(entries[first]), mem)->Ok_0;
        let rest = places.drop_first();
        assert(items[0] == pci_as_saved(entries[first]));
        assert(items.drop_first() =~= saved_at(entries, rest));
        assert(restorable_places(mid, entries, rest, done.insert(first))) by {
            assert forall|k: int| 0 <= k < rest.len() implies {
                &&& 0 <= #[trigger] rest[k] < entries.len()
                &&& !done.insert(first).contains(rest[k])
                &&& snapshotted(entries[rest[k]])
                &&& finds_mmds(mid, entries[rest[k]])
            } by {
                assert(rest[k] == places[k + 1]);
            }
            assert forall|k: int, l: int| 0 <= k < l < rest.len() implies rest[k] != rest[l] by {
                assert(rest[k] == places[k + 1] && rest[l] == places[l + 1]);
            }
        }
        lemma_restores_all(mid, entries, rest, done.insert(first), bus, mem);
        let next = pci_items_applied(mid, saved_at(entries, rest), mem)->Ok_0;
        assert(next.entries =~= world.entries + items);
        assert(done.insert(first).union(rest.to_set()) =~= done.union(places.to_set())) by {
            assert forall|p: int|
                done.insert(first).union(rest.to_set()).contains(p) == done.union(
                    places.to_set(),
                ).contains(p) by {
                if rest.to_set().contains(p) {
                    let k = choose|k: int| 0 <= k < rest.len() && rest[k] == p;
                    assert(places[k + 1] == p);
                }
                if places.to_set().contains(p) {
                    let k = choose|k: int| 0 <= k < places.len() && places[k] == p;
                    if k > 0 {
                        assert(rest[k - 1] == p);
                    }
                }
            }
        }
    }
}

/// The places of the devices that a snapshot of `entries` holds, in the order in which
/// they are restored: the last balloon device, the block devices that this process
/// serves, the network devices, the last vsock device, the last entropy device.
pub open spec fn restore_places(entries: Seq<PciEntry>) -> Seq<int> {
    place_seq(last_place(entries, TYPE_BALLOON)) + block_places(entries) + net_places(entries)
        + place_seq(last_place(entries, TYPE_VSOCK)) + place_seq(last_place(entries, TYPE_RNG))
}

/// Restoring one item is restoring the sequence of that one item.
pub proof fn lemma_single_item(world: RestoredPciWorld, item: Option<SavedPciDevice>, mem: GuestMemory)
    ensures
        pci_option_applied(world, item, mem) == pci_items_applied(world, item_seq(item), mem),
{
    match item {
        Some(x) => {
            let items = item_seq(item);
            assert(items[0] == x);
            assert(items.drop_first() =~= Seq::<SavedPciDevice>::empty());
            match pci_item_applied(world, x, mem) {
                Ok(next) => {
                    assert(pci_items_applied(next, items.drop_first(), mem) == Ok::<
                        RestoredPciWorld,
                        PciManagerError,
                    >(next));
                },
                Err(_) => {},
            }
        },
        None => {},
    }
}

/// The devices at `places`, which are not among the devices at `before` that the world
/// holds, are restored behind them.
pub proof fn lemma_group_restored(
    world: RestoredPciWorld,
    entries: Seq<PciEntry>,
    before: Seq<int>,
    places: Seq<int>,
    bus: Map<u64, (u64, u64)>,
    mem: GuestMemory,
)
    requires
        topology_sound(entries, mem, world.resources.mem_size_mib),
        world_covers(world, entries, before.to_set(), bus),
        world.entries == saved_at(entries, before),
        apart(places, before),
        restorable_places(world, entries, places, Set::<int>::empty()),
    ensures
        pci_items_applied(world, saved_at(entries, places), mem) matches Ok(next) && {
            &&& next.entries == saved_at(entries, before + places)
            &&& world_covers(next, entries, (before + places).to_set(), bus)
            &&& next.resources.mmds == world.resources.mmds
            &&& next.resources.mem_size_mib == world.resources.mem_size_mib
            &&& next.resources.mmds_instance_id == world.resources.mmds_instance_id
        },
{
    let done = before.to_set();
    assert(restorable_places(world, entries, places, done)) by {
        assert forall|k: int| 0 <= k < places.len() implies !done.contains(#[trigger] places[k]) by {
            if done.contains(places[k]) {
                let l = choose|l: int| 0 <= l < before.len() && before[l] == places[k];
                assert(places[k] != before[l]);
            }
        }
    }
    lemma_restores_all(world, entries, places, done, bus, mem);
    let next = pci_items_applied(world, saved_at(entries, places), mem)->Ok_0;
    assert(next.entries =~= saved_at(entries, before + places));
    assert(done.union(places.to_set()) =~= (before + places).to_set()) by {
        assert forall|p: int|
            done.union(places.to_set()).contains(p) == (before + places).to_set().contains(p) by {
            if done.contains(p) {
                let l = choose|l: int| 0 <= l < before.len() && before[l] == p;
                assert((before + places)[l] == p);
            }
            if places.to_set().contains(p) {
                let l = choose|l: int| 0 <= l < places.len() && places[l] == p;
                assert((before + places)[before.len() + l] == p);
            }
            if (before + places).to_set().contains(p) {
                let l = choose|l: int| 0 <= l < (before + places).len() && (before + places)[l] == p;
                if l < before.len() {
                    assert(before[l] == p);
                } else {
                    assert(places[l - before.len()] == p);
                }
            }
        }
    }
    lemma_items_keep_instance_id(world, saved_at(entries, places), mem);
}

/// Restoring devices does not touch the instance identifier of the metadata service.
pub proof fn lemma_items_keep_instance_id(world: RestoredPciWorld, items: Seq<SavedPciDevice>, mem: GuestMemory)
    ensures
        pci_items_applied(world, items, mem) matches Ok(after) ==> after.resources.mmds_instance_id
            == world.resources.mmds_instance_id,
    decreases items.len(),
{
    if items.len() > 0 {
        match pci_item_applied(world, items[0], mem) {
            Ok(next) => {
                lemma_items_keep_instance_id(next, items.drop_first(), mem);
            },
            Err(_) => {},
        }
    }
}

/// The places of the devices that a snapshot holds, by the kind of the device: no place
/// is named twice, each is the place of a device of the kind that names it, and a
/// snapshot holds the device there.
pub proof fn lemma_places_by_kind(entries: Seq<PciEntry>)
    ensures
        ({
            let balloon = place_seq(last_place(entries, TYPE_BALLOON));
            let blocks = block_places(entries);
            let nets = net_places(entries);
            let vsock = place_seq(last_place(entries, TYPE_VSOCK));
            let entropy = place_seq(last_place(entries, TYPE_RNG));
            &&& apart(blocks, balloon)
            &&& apart(nets, balloon + blocks)
            &&& apart(vsock, balloon + blocks + nets)
            &&& apart(entropy, balloon + blocks + nets + vsock)
            &&& places_of_type(entries, balloon, TYPE_BALLOON)
            &&& places_of_type(entries, blocks, TYPE_BLOCK)
            &&& places_of_type(entries, nets, TYPE_NET)
            &&& places_of_type(entries, vsock, TYPE_VSOCK)
            &&& places_of_type(entries, entropy, TYPE_RNG)
        }),
{
    lemma_captured_blocks(entries);
    lemma_captured_nets(entries);
    lemma_last_place(entries, TYPE_BALLOON);
    lemma_last_place(entries, TYPE_VSOCK);
    lemma_last_place(entries, TYPE_RNG);
    let balloon = place_seq(last_place(entries, TYPE_BALLOON));
    let blocks = block_places(entries);
    let nets = net_places(entries);
    let vsock = place_seq(last_place(entries, TYPE_VSOCK));
    let entropy = place_seq(last_place(entries, TYPE_RNG));
    assert(places_of_type(entries, blocks, TYPE_BLOCK)) by {
        assert forall|k: int| 0 <= k < blocks.len() implies {
            &&& 0 <= #[trigger] blocks[k] < entries.len()
            &&& entries[blocks[k]].device.device.spec_device_type() == TYPE_BLOCK
            &&& snapshotted(entries[blocks[k]])
        } by {
            assert(entries[blocks[k]].device.device is Block);
        }
    }
    assert(places_of_type(entries, nets, TYPE_NET)) by {
        assert forall|k: int| 0 <= k < nets.len() implies {
            &&& 0 <= #[trigger] nets[k] < entries.len()
            &&& entries[nets[k]].device.device.spec_device_type() == TYPE_NET
            &&& snapshotted(entries[nets[k]])
        } by {
            assert(entries[nets[k]].device.device is Net);
        }
    }
    lemma_types_apart(entries, blocks, TYPE_BLOCK, balloon, TYPE_BALLOON);
    lemma_types_apart(entries, nets, TYPE_NET, balloon, TYPE_BALLOON);
    lemma_types_apart(entries, nets, TYPE_NET, blocks, TYPE_BLOCK);
    lemma_types_apart(entries, vsock, TYPE_VSOCK, balloon, TYPE_BALLOON);
    lemma_types_apart(entries, vsock, TYPE_VSOCK, blocks, TYPE_BLOCK);
    lemma_types_apart(entries, vsock, TYPE_VSOCK, nets, TYPE_NET);
    lemma_types_apart(entries, entropy, TYPE_RNG, balloon, TYPE_BALLOON);
    lemma_types_apart(entries, entropy, TYPE_RNG, blocks, TYPE_BLOCK);
    lemma_types_apart(entries, entropy, TYPE_RNG, nets, TYPE_NET);
    lemma_types_apart(entries, entropy, TYPE_RNG, vsock, TYPE_VSOCK);
    lemma_apart_from_both(nets, balloon, blocks);
    lemma_apart_from_both(vsock, balloon, blocks);
    lemma_apart_from_both(vsock, balloon + blocks, nets);
    lemma_apart_from_both(entropy, balloon, blocks);
    lemma_apart_from_both(entropy, balloon + blocks, nets);
    lemma_apart_from_both(entropy, balloon + blocks + nets, vsock);
}

/// Whether `places` are places of devices of the type `device_type` that a snapshot
/// holds, none named twice.
pub open spec fn places_of_type(entries: Seq<PciEntry>, places: Seq<int>, device_type: u32) -> bool {
    &&& forall|k: int|
        0 <= k < places.len() ==> {
            &&& 0 <= #[trigger] places[k] < entries.len()
            &&& entries[places[k]].device.device.spec_device_type() == device_type
            &&& snapshotted(entries[places[k]])
        }
    &&& forall|k: int, l: int| 0 <= k < l < places.len() ==> places[k] != places[l]
}

/// Places of devices of different types are different places.
pub proof fn lemma_types_apart(
    entries: Seq<PciEntry>,
    places: Seq<int>,
    device_type: u32,
    others: Seq<int>,
    other_type: u32,
)
    requires
        places_of_type(entries, places, device_type),
        places_of_type(entries, others, other_type),
        device_type != other_type,
    ensures
        apart(places, others),
{
}

/// Places of devices that a snapshot holds can be restored into a world in which their
/// network devices find the metadata service.
pub proof fn lemma_restorable(
    world: RestoredPciWorld,
    entries: Seq<PciEntry>,
    places: Seq<int>,
    device_type: u32,
)
    requires
        places_of_type(entries, places, device_type),
        device_type == TYPE_NET ==> forall|k: int|
            0 <= k < places.len() ==> finds_mmds(world, entries[#[trigger] places[k]]),
    ensures
        restorable_places(world, entries, places, Set::<int>::empty()),
{
    assert forall|k: int| 0 <= k < places.len() implies finds_mmds(
        world,
        entries[#[trigger] places[k]],
    ) by {
        if device_type != TYPE_NET {
            assert(!(entries[places[k]].device.device is Net));
        }
    }
}

/// Saving and restoring gives the devices back.
///
/// Let `entries` be the devices of a sound registry, brought to rest, and let `world` hold
/// no device, a PCI bus with only its root, and nothing on its bus of memory-mapped
/// registers where a device of `entries` has its BAR.
/// Then restoring the snapshot of `entries` in `world` succeeds, and the registry then
/// holds, in the order of [`restore_places`], the devices that the snapshot holds: each
/// saves exactly as the device of `entries` that it was restored from, so it has its type,
/// its identifier, its activation, its slot, its BAR and its interrupt lines.
pub proof fn lemma_round_trip(
    entries: Seq<PciEntry>,
    world: RestoredPciWorld,
    instance_id: Seq<char>,
    mem: GuestMemory,
)
    requires
        topology_sound(entries, mem, world.resources.mem_size_mib),
        world.entries == Seq::<SavedPciDevice>::empty(),
        world.slots == empty_slots(),
        forall|i: int|
            0 <= i < entries.len() ==> !overlaps_any(
                world.bus,
                (#[trigger] entries[i]).device.bar_address,
                CAPABILITY_BAR_SIZE,
            ),
    ensures
        pci_restore_outcome(world, pci_captured(entries), instance_id, mem) matches Ok(after)
            && after.entries == saved_at(entries, restore_places(entries)),
{
    let s = pci_captured(entries);
    let bus = world.bus;
    lemma_places_by_kind(entries);
    lemma_snapshot_items(entries);
    let balloon = place_seq(last_place(entries, TYPE_BALLOON));
    let blocks = block_places(entries);
    let nets = net_places(entries);
    let vsock = place_seq(last_place(entries, TYPE_VSOCK));
    let entropy = place_seq(last_place(entries, TYPE_RNG));
    let none = Seq::<int>::empty();

    // the balloon device
    assert(world_covers(world, entries, none.to_set(), bus));
    assert(world.entries =~= saved_at(entries, none));
    lemma_restorable(world, entries, balloon, TYPE_BALLOON);
    lemma_group_restored(world, entries, none, balloon, bus, mem);
    lemma_single_item(world, pci_balloon_item(s), mem);
    let w1 = pci_option_applied(world, pci_balloon_item(s), mem)->Ok_0;
    assert(none + balloon =~= balloon);

    // the block devices
    lemma_restorable(w1, entries, blocks, TYPE_BLOCK);
    lemma_group_restored(w1, entries, balloon, blocks, bus, mem);
    let w2 = pci_items_applied(w1, pci_block_items(s), mem)->Ok_0;

    // the metadata service and the network devices
    let w2c = RestoredPciWorld { resources: pci_mmds_configured(w2.resources, s, instance_id), ..w2 };
    lemma_nets_find_mmds(entries, w2, instance_id);
    lemma_restorable(w2c, entries, nets, TYPE_NET);
    lemma_group_restored(w2c, entries, balloon + blocks, nets, bus, mem);
    let w3 = pci_items_applied(w2c, pci_net_items(s), mem)->Ok_0;

    // the vsock device
    lemma_restorable(w3, entries, vsock, TYPE_VSOCK);
    lemma_group_restored(w3, entries, balloon + blocks + nets, vsock, bus, mem);
    lemma_single_item(w3, pci_vsock_item(s), mem);
    let w4 = pci_option_applied(w3, pci_vsock_item(s), mem)->Ok_0;

    // the entropy device
    lemma_restorable(w4, entries, entropy, TYPE_RNG);
    lemma_group_restored(w4, entries, balloon + blocks + nets + vsock, entropy, bus, mem);
    lemma_single_item(w4, pci_entropy_item(s), mem);
}

/// The items of the snapshot of `entries` are the devices at the places of their kinds.
pub proof fn lemma_snapshot_items(entries: Seq<PciEntry>)
    ensures
        item_seq(pci_balloon_item(pci_captured(entries))) == saved_at(
            entries,
            place_seq(last_place(entries, TYPE_BALLOON)),
        ),
        pci_block_items(pci_captured(entries)) == saved_at(entries, block_places(entries)),
        pci_net_items(pci_captured(entries)) == saved_at(entries, net_places(entries)),
        item_seq(pci_vsock_item(pci_captured(entries))) == saved_at(
            entries,
            place_seq(last_place(entries, TYPE_VSOCK)),
        ),
        item_seq(pci_entropy_item(pci_captured(entries))) == saved_at(
            entries,
            place_seq(last_place(entries, TYPE_RNG)),
        ),
{
    let s = pci_captured(entries);
    lemma_captured_blocks(entries);
    lemma_captured_nets(entries);
    lemma_captured_singletons(entries);
    assert(pci_block_items(s) =~= saved_at(entries, block_places(entries)));
    assert(pci_net_items(s) =~= saved_at(entries, net_places(entries)));
    assert(item_seq(pci_balloon_item(s)) =~= saved_at(
        entries,
        place_seq(last_place(entries, TYPE_BALLOON)),
    ));
    assert(item_seq(pci_vsock_item(s)) =~= saved_at(
        entries,
        place_seq(last_place(entries, TYPE_VSOCK)),
    ));
    assert(item_seq(pci_entropy_item(s)) =~= saved_at(
        entries,
        place_seq(last_place(entries, TYPE_RNG)),
    ));
}

/// Once the metadata service is configured as the snapshot of `entries` asks for it,
/// every network device of `entries` that exposes the service finds it.
pub proof fn lemma_nets_find_mmds(entries: Seq<PciEntry>, world: RestoredPciWorld, instance_id: Seq<char>)
    ensures
        forall|i: int|
            0 <= i < entries.len() ==> finds_mmds(
                RestoredPciWorld {
                    resources: pci_mmds_configured(world.resources, pci_captured(entries), instance_id),
                    ..world
                },
                #[trigger] entries[i],
            ),
{
    lemma_mmds_record_is_first_exposed(entries);
}

/// Every device that a snapshot holds comes back: a device of `entries` that a snapshot
/// holds has a place among [`restore_places`], unless a later device of the registry is a
/// balloon, vsock or entropy device as it is; of these kinds there is one device.
pub proof fn lemma_restore_places_complete(entries: Seq<PciEntry>, i: int)
    requires
        0 <= i < entries.len(),
        snapshotted(entries[i]),
        forall|j: int|
            i < j < entries.len() ==> !((#[trigger] entries[j]).device.device.spec_device_type()
                == entries[i].device.device.spec_device_type() && !(
            entries[i].device.device is Block) && !(entries[i].device.device is Net)),
    ensures
        restore_places(entries).contains(i),
{
    lemma_captured_blocks(entries);
    lemma_captured_nets(entries);
    let device_type = entries[i].device.device.spec_device_type();
    lemma_last_place(entries, device_type);
    let balloon = place_seq(last_place(entries, TYPE_BALLOON));
    let blocks = block_places(entries);
    let nets = net_places(entries);
    let vsock = place_seq(last_place(entries, TYPE_VSOCK));
    let entropy = place_seq(last_place(entries, TYPE_RNG));
    let all = restore_places(entries);
    match entries[i].device.device {
        VirtioDevice::Block(_) => {
            let k = choose|k: int| 0 <= k < blocks.len() && blocks[k] == i;
            assert(all[balloon.len() + k] == i);
        },
        VirtioDevice::Net(_) => {
            let k = choose|k: int| 0 <= k < nets.len() && nets[k] == i;
            assert(all[balloon.len() + blocks.len() + k] == i);
        },
        VirtioDevice::Balloon(_) => {
            assert(last_place(entries, TYPE_BALLOON) == Some(i));
            assert(all[0] == i);
        },
        VirtioDevice::Vsock(_) => {
            assert(last_place(entries, TYPE_VSOCK) == Some(i));
            assert(all[(balloon.len() + blocks.len() + nets.len()) as int] == i);
        },
        VirtioDevice::Entropy(_) => {
            assert(last_place(entries, TYPE_RNG) == Some(i));
            assert(all[(balloon.len() + blocks.len() + nets.len() + vsock.len()) as int] == i);
        },
    }
}

/// A block device that a process outside this one serves is not in a snapshot: no block
/// device of the snapshot has its identifier.
pub proof fn lemma_vhost_user_block_left_out(entries: Seq<PciEntry>, i: int, k: int)
    requires
        pci_keys_distinct(entries),
        forall|j: int|
            0 <= j < entries.len() ==> (#[trigger] entries[j]).device_type
                == entries[j].device.device.spec_device_type() && entries[j].device.id@
                == entries[j].device_id@,
        0 <= i < entries.len(),
        !snapshotted(entries[i]),
        0 <= k < pci_captured_blocks(entries).len(),
    ensures
        pci_captured_blocks(entries)[k].device_id != entries[i].device_id@,
{
    lemma_captured_blocks(entries);
    let p = block_places(entries)[k];
    assert(SavedPciDevice::Block(pci_captured_blocks(entries)[k]) == pci_as_saved(entries[p]));
    assert(p != i);
    if p < i {
        assert(!(entries[p].device_type == entries[i].device_type && entries[p].device_id@
            == entries[i].device_id@));
    } else {
        assert(!(entries[i].device_type == entries[p].device_type && entries[i].device_id@
            == entries[p].device_id@));
    }
}

/// The items `items` as restored devices save again: see [`SavedPciDevice::normal`].
pub open spec fn normal_items(items: Seq<SavedPciDevice>) -> Seq<SavedPciDevice> {
    items.map_values(|item: SavedPciDevice| item.normal())
}

/// The devices that restoring `items` adds to the world are `items` themselves, wherever
/// it is done: the devices come back with the resources that were saved.
pub proof fn lemma_items_come_back(world: RestoredPciWorld, items: Seq<SavedPciDevice>, mem: GuestMemory)
    ensures
        pci_items_applied(world, items, mem) matches Ok(after) ==> after.entries == world.entries
            + normal_items(items),
    decreases items.len(),
{
    if items.len() == 0 {
        assert(world.entries + normal_items(items) =~= world.entries);
    } else {
        match pci_item_applied(world, items[0], mem) {
            Ok(next) => {
                lemma_items_come_back(next, items.drop_first(), mem);
                match pci_items_applied(next, items.drop_first(), mem) {
                    Ok(after) => {
                        assert(after.entries =~= world.entries + normal_items(items));
                    },
                    Err(_) => {},
                }
            },
            Err(_) => {},
        }
    }
}

/// The saved devices of the snapshot `s`, in the order in which they are restored.
pub open spec fn restore_order(s: PciDevicesStateView) -> Seq<SavedPciDevice> {
    item_seq(pci_balloon_item(s)) + pci_block_items(s) + pci_net_items(s) + item_seq(
        pci_vsock_item(s),
    ) + item_seq(pci_entropy_item(s))
}

/// The item `item`, if there is one, as a sequence of items.
pub open spec fn item_seq(item: Option<SavedPciDevice>) -> Seq<SavedPciDevice> {
    match item {
        Some(item) => seq![item],
        None => Seq::empty(),
    }
}

/// Restoring is repeatable: whenever restoring the snapshot `s` succeeds, from whatever
/// world without devices, the registry holds the devices of `s`, each in the slot, with
/// the BAR and with the interrupt lines that `s` has saved. Two restores of one snapshot
/// so give the same devices with the same resources.
pub proof fn lemma_restore_is_repeatable(
    first: RestoredPciWorld,
    second: RestoredPciWorld,
    s: PciDevicesStateView,
    instance_id: Seq<char>,
    mem: GuestMemory,
)
    requires
        first.entries == Seq::<SavedPciDevice>::empty(),
        second.entries == Seq::<SavedPciDevice>::empty(),
    ensures
        pci_restore_outcome(first, s, instance_id, mem) matches Ok(after) ==> after.entries
            == normal_items(restore_order(s)),
        pci_restore_outcome(first, s, instance_id, mem) is Ok && pci_restore_outcome(
            second,
            s,
            instance_id,
            mem,
        ) is Ok ==> pci_restore_outcome(first, s, instance_id, mem)->Ok_0.entries
            == pci_restore_outcome(second, s, instance_id, mem)->Ok_0.entries,
{
    lemma_outcome_entries(first, s, instance_id, mem);
    lemma_outcome_entries(second, s, instance_id, mem);
}

/// Whenever restoring the snapshot `s` succeeds, the registry holds behind the devices of
/// the world the devices of `s`.
pub proof fn lemma_outcome_entries(
    world: RestoredPciWorld,
    s: PciDevicesStateView,
    instance_id: Seq<char>,
    mem: GuestMemory,
)
    ensures
        pci_restore_outcome(world, s, instance_id, mem) matches Ok(after) ==> after.entries
            == world.entries + normal_items(restore_order(s)),
{
    if pci_restore_outcome(world, s, instance_id, mem) is Ok {
        let w1 = pci_option_applied(world, pci_balloon_item(s), mem)->Ok_0;
        let w2 = pci_items_applied(w1, pci_block_items(s), mem)->Ok_0;
        let w2c = RestoredPciWorld {
            resources: pci_mmds_configured(w2.resources, s, instance_id),
            ..w2
        };
        let w3 = pci_items_applied(w2c, pci_net_items(s), mem)->Ok_0;
        let w4 = pci_option_applied(w3, pci_vsock_item(s), mem)->Ok_0;
        let w5 = pci_option_applied(w4, pci_entropy_item(s), mem)->Ok_0;
        lemma_items_come_back(w1, pci_block_items(s), mem);
        lemma_items_come_back(w2c, pci_net_items(s), mem);
        assert(w1.entries =~= world.entries + normal_items(item_seq(pci_balloon_item(s))));
        assert(w4.entries =~= w3.entries + normal_items(item_seq(pci_vsock_item(s))));
        assert(w5.entries =~= w4.entries + normal_items(item_seq(pci_entropy_item(s))));
        assert(w5.entries =~= world.entries + normal_items(restore_order(s)));
    }
}

/// Saving keeps a registry sound: the devices that were brought to rest are the devices of
/// a sound registry if they were before.
pub proof fn lemma_quiescing_keeps_sound(
    pre: Seq<PciEntry>,
    post: Seq<PciEntry>,
    mem: GuestMemory,
    mem_size_mib: u32,
)
    requires
        pci_all_quiesced(pre, post),
        topology_sound(pre, mem, mem_size_mib),
    ensures
        topology_sound(post, mem, mem_size_mib),
{
    assert forall|i: int| 0 <= i < post.len() implies {
        &&& (#[trigger] post[i]).device_type == post[i].device.device.spec_device_type()
        &&& post[i].device.id@ == post[i].device_id@
        &&& post[i].device.device_activated == post[i].device.device.spec_is_activated()
        &&& 1 <= slot_of(post[i])
        &&& snapshotted(post[i]) ==> device_sound(post[i].device.device, mem, mem_size_mib)
    } by {
        assert(pre[i].device_type == pre[i].device.device.spec_device_type());
        lemma_quiesced_device_is_sound(pre[i].device.device, post[i].device.device, mem, mem_size_mib);
        assert(slot_of(post[i]) == slot_of(pre[i]));
    }
    assert(pci_keys_distinct(post)) by {
        assert forall|i: int, j: int| 0 <= i < j < post.len() implies !((
        #[trigger] post[i]).device_type == (#[trigger] post[j]).device_type && post[i].device_id@
            == post[j].device_id@) by {
            assert(!(pre[i].device_type == pre[j].device_type && pre[i].device_id@
                == pre[j].device_id@));
        }
    }
    assert(bars_disjoint(post)) by {
        assert forall|i: int| 0 <= i < post.len() implies range_valid(
            (#[trigger] post[i]).device.bar_address,
            CAPABILITY_BAR_SIZE,
        ) by {
            assert(range_valid(pre[i].device.bar_address, CAPABILITY_BAR_SIZE));
        }
        assert forall|i: int, j: int| 0 <= i < j < post.len() implies !regions_overlap(
            (#[trigger] post[i]).device.bar_address,
            CAPABILITY_BAR_SIZE,
            (#[trigger] post[j]).device.bar_address,
            CAPABILITY_BAR_SIZE,
        ) by {
            assert(!regions_overlap(
                pre[i].device.bar_address,
                CAPABILITY_BAR_SIZE,
                pre[j].device.bar_address,
                CAPABILITY_BAR_SIZE,
            ));
        }
    }
    assert forall|i: int, j: int| 0 <= i < j < post.len() implies slot_of(#[trigger] post[i])
        != slot_of(#[trigger] post[j]) by {
        assert(slot_of(pre[i]) != slot_of(pre[j]));
        assert(slot_of(post[i]) == slot_of(pre[i]));
        assert(slot_of(post[j]) == slot_of(pre[j]));
    }
}

} // verus!
