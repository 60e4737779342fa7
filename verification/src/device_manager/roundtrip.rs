//! What a snapshot of the registry of memory-mapped devices holds, and what restoring it
//! gives back.

use vstd::prelude::*;

use crate::device_manager::mmio::{
    keys_distinct, regions_disjoint, window_valid, MmioEntry,
};
use crate::device_manager::persist::{
    all_quiesced, quiesced, already_held, as_saved, balloon_item, block_items, captured, captured_blocks, captured_mmds,
    captured_nets, entropy_item, item_applied, item_checked, item_registered, items_applied,
    captured_with, devices_outcome, kind_saved, legacies_applied, legacy_applied,
    mmds_configured, net_items, option_applied, restore_outcome, some_net_exposes_mmds,
    vsock_item, ConnectedLegacyState, DevicePersistError, DeviceStatesView, MmdsState,
    RestoredWorld, SavedDevice,
};
use crate::devices::virtio::balloon::BALLOON_NUM_QUEUES;
use crate::devices::virtio::block::BLOCK_NUM_QUEUES;
use crate::devices::virtio::device::VirtioDevice;
use crate::devices::virtio::net::NET_NUM_QUEUES;
use crate::devices::virtio::queue::all_valid_in;
use crate::devices::virtio::rng::RNG_NUM_QUEUES;
use crate::devices::virtio::vsock::VSOCK_NUM_QUEUES;
use crate::devices::virtio::{
    MAX_QUEUE_SIZE, TYPE_BALLOON, TYPE_BLOCK, TYPE_NET, TYPE_RNG, TYPE_VSOCK,
};
use crate::vstate::bus::{overlaps_any, regions_overlap};
use crate::vstate::memory::GuestMemory;

verus! {

/// The record of the metadata service that the entry `e` gives to a snapshot: that of
/// the service that its network device exposes, if it is one and exposes one.
pub open spec fn exposed_mmds(e: MmioEntry) -> Option<MmdsState> {
    match e.device.inner.device {
        VirtioDevice::Net(dev) => match dev.mmds_ns {
            Some(ns) => Some(MmdsState { version: ns.mmds.version, imds_compat: ns.mmds.imds_compat }),
            None => None,
        },
        _ => None,
    }
}

/// Whether a snapshot holds the device of `e`: every device but a block device that a
/// process outside this one serves.
pub open spec fn snapshotted(e: MmioEntry) -> bool {
    !(e.device.inner.device matches VirtioDevice::Block(dev) && dev.vhost_user)
}

/// However many network devices expose the metadata service, a snapshot holds one record
/// of it: that of the first device of the registry that exposes it. Without such a device
/// it holds none.
pub proof fn lemma_mmds_record_is_first_exposed(entries: Seq<MmioEntry>)
    ensures
        match captured_mmds(entries) {
            Some(record) => exists|i: int|
                0 <= i < entries.len() && exposed_mmds(#[trigger] entries[i]) == Some(record)
                    && forall|j: int| 0 <= j < i ==> exposed_mmds(#[trigger] entries[j]) is None,
            None => forall|i: int|
                0 <= i < entries.len() ==> exposed_mmds(#[trigger] entries[i]) is None,
        },
    decreases entries.len(),
{
    if entries.len() > 0 {
        let front = entries.drop_last();
        lemma_mmds_record_is_first_exposed(front);
        match captured_mmds(front) {
            Some(record) => {
                let i = choose|i: int|
                    0 <= i < front.len() && exposed_mmds(#[trigger] front[i]) == Some(record)
                        && forall|j: int| 0 <= j < i ==> exposed_mmds(#[trigger] front[j]) is None;
                assert(entries[i] == front[i]);
                assert forall|j: int| 0 <= j < i implies exposed_mmds(
                    #[trigger] entries[j],
                ) is None by {
                    assert(entries[j] == front[j]);
                }
            },
            None => {
                assert forall|j: int| 0 <= j < entries.len() - 1 implies exposed_mmds(
                    #[trigger] entries[j],
                ) is None by {
                    assert(entries[j] == front[j]);
                }
                if exposed_mmds(entries.last()) is Some {
                    assert(entries[entries.len() - 1] == entries.last());
                }
            },
        }
    }
}

/// The places in the registry of the block devices that a snapshot holds.
pub open spec fn block_places(entries: Seq<MmioEntry>) -> Seq<int>
    decreases entries.len(),
{
    if entries.len() == 0 {
        Seq::empty()
    } else {
        let rest = block_places(entries.drop_last());
        match entries.last().device.inner.device {
            VirtioDevice::Block(dev) => if dev.vhost_user {
                rest
            } else {
                rest.push(entries.len() - 1)
            },
            _ => rest,
        }
    }
}

/// The places in the registry of the network devices.
pub open spec fn net_places(entries: Seq<MmioEntry>) -> Seq<int>
    decreases entries.len(),
{
    if entries.len() == 0 {
        Seq::empty()
    } else {
        let rest = net_places(entries.drop_last());
        match entries.last().device.inner.device {
            VirtioDevice::Net(_) => rest.push(entries.len() - 1),
            _ => rest,
        }
    }
}

/// The place in the registry of the last device of the type `device_type`.
pub open spec fn last_place(entries: Seq<MmioEntry>, device_type: u32) -> Option<int>
    decreases entries.len(),
{
    if entries.len() == 0 {
        None
    } else if entries.last().device.inner.device.spec_device_type() == device_type {
        Some(entries.len() - 1)
    } else {
        last_place(entries.drop_last(), device_type)
    }
}

/// Whether `places` are places of `entries`, in rising order.
pub open spec fn rising_places(places: Seq<int>, entries: Seq<MmioEntry>) -> bool {
    &&& forall|k: int| 0 <= k < places.len() ==> 0 <= #[trigger] places[k] < entries.len()
    &&& forall|k: int, l: int| 0 <= k < l < places.len() ==> places[k] < places[l]
}

/// The block devices of a snapshot are the block devices of the registry that this
/// process serves, in the order of the registry, and no others: a block device that a
/// process outside this one serves is not among them.
pub proof fn lemma_captured_blocks(entries: Seq<MmioEntry>)
    ensures
        rising_places(block_places(entries), entries),
        captured_blocks(entries).len() == block_places(entries).len(),
        forall|k: int|
            0 <= k < block_places(entries).len() ==> {
                let e = entries[#[trigger] block_places(entries)[k]];
                &&& e.device.inner.device matches VirtioDevice::Block(dev)
                &&& !dev.vhost_user
                &&& SavedDevice::Block(captured_blocks(entries)[k]) == as_saved(e)
            },
        forall|i: int|
            0 <= i < entries.len() && (#[trigger] entries[i]).device.inner.device is Block
                && snapshotted(entries[i]) ==> block_places(entries).contains(i),
    decreases entries.len(),
{
    if entries.len() > 0 {
        let front = entries.drop_last();
        lemma_captured_blocks(front);
        let places = block_places(entries);
        let old_places = block_places(front);
        assert forall|k: int| 0 <= k < old_places.len() implies entries[#[trigger] old_places[k]]
            == front[old_places[k]] by {}
        assert forall|k: int| 0 <= k < places.len() implies {
            let e = entries[#[trigger] places[k]];
            &&& e.device.inner.device matches VirtioDevice::Block(dev)
            &&& !dev.vhost_user
            &&& SavedDevice::Block(captured_blocks(entries)[k]) == as_saved(e)
        } by {
            if k < old_places.len() {
                assert(places[k] == old_places[k]);
                assert(entries[old_places[k]] == front[old_places[k]]);
            }
        }
        assert forall|i: int|
            0 <= i < entries.len() && (#[trigger] entries[i]).device.inner.device is Block
                && snapshotted(entries[i]) implies places.contains(i) by {
            if i < entries.len() - 1 {
                assert(entries[i] == front[i]);
                let k = choose|k: int| 0 <= k < old_places.len() && old_places[k] == i;
                assert(places[k] == i);
            } else {
                assert(places[places.len() - 1] == i);
            }
        }
    }
}

/// The network devices of a snapshot are the network devices of the registry, in the
/// order of the registry.
pub proof fn lemma_captured_nets(entries: Seq<MmioEntry>)
    ensures
        rising_places(net_places(entries), entries),
        captured_nets(entries).len() == net_places(entries).len(),
        forall|k: int|
            0 <= k < net_places(entries).len() ==> {
                let e = entries[#[trigger] net_places(entries)[k]];
                &&& e.device.inner.device is Net
                &&& SavedDevice::Net(captured_nets(entries)[k]) == as_saved(e)
            },
        forall|i: int|
            0 <= i < entries.len() && (#[trigger] entries[i]).device.inner.device is Net
                ==> net_places(entries).contains(i),
    decreases entries.len(),
{
    if entries.len() > 0 {
        let front = entries.drop_last();
        lemma_captured_nets(front);
        let places = net_places(entries);
        let old_places = net_places(front);
        assert forall|k: int| 0 <= k < places.len() implies {
            let e = entries[#[trigger] places[k]];
            &&& e.device.inner.device is Net
            &&& SavedDevice::Net(captured_nets(entries)[k]) == as_saved(e)
        } by {
            if k < old_places.len() {
                assert(places[k] == old_places[k]);
                assert(entries[old_places[k]] == front[old_places[k]]);
            }
        }
        assert forall|i: int|
            0 <= i < entries.len() && (#[trigger] entries[i]).device.inner.device is Net implies places.contains(
            i,
        ) by {
            if i < entries.len() - 1 {
                assert(entries[i] == front[i]);
                let k = choose|k: int| 0 <= k < old_places.len() && old_places[k] == i;
                assert(places[k] == i);
            } else {
                assert(places[places.len() - 1] == i);
            }
        }
    }
}

/// The last place of a type is a place of a device of that type, and no device of the
/// type comes behind it; without a last place there is no device of the type.
pub proof fn lemma_last_place(entries: Seq<MmioEntry>, device_type: u32)
    ensures
        match last_place(entries, device_type) {
            Some(i) => {
                &&& 0 <= i < entries.len()
                &&& entries[i].device.inner.device.spec_device_type() == device_type
                &&& forall|j: int|
                    i < j < entries.len() ==> (
                    #[trigger] entries[j]).device.inner.device.spec_device_type() != device_type
            },
            None => forall|j: int|
                0 <= j < entries.len() ==> (
                #[trigger] entries[j]).device.inner.device.spec_device_type() != device_type,
        },
    decreases entries.len(),
{
    if entries.len() > 0 {
        if entries.last().device.inner.device.spec_device_type() != device_type {
            let front = entries.drop_last();
            lemma_last_place(front, device_type);
            assert forall|j: int| 0 <= j < front.len() implies entries[j] == #[trigger] front[j] by {}
            match last_place(front, device_type) {
                Some(i) => {
                    assert(entries[i] == front[i]);
                    assert forall|j: int| i < j < entries.len() implies (
                    #[trigger] entries[j]).device.inner.device.spec_device_type()
                        != device_type by {
                        if j < front.len() {
                            assert(entries[j] == front[j]);
                        }
                    }
                },
                None => {
                    assert forall|j: int| 0 <= j < entries.len() implies (
                    #[trigger] entries[j]).device.inner.device.spec_device_type()
                        != device_type by {
                        if j < front.len() {
                            assert(entries[j] == front[j]);
                        }
                    }
                },
            }
        }
    }
}

/// The balloon, vsock and entropy device of a snapshot are the last devices of their
/// types in the registry.
pub proof fn lemma_captured_singletons(entries: Seq<MmioEntry>)
    ensures
        balloon_item(captured(entries)) == (match last_place(entries, TYPE_BALLOON) {
            Some(i) => Some(as_saved(entries[i])),
            None => None,
        }),
        vsock_item(captured(entries)) == (match last_place(entries, TYPE_VSOCK) {
            Some(i) => Some(as_saved(entries[i])),
            None => None,
        }),
        entropy_item(captured(entries)) == (match last_place(entries, TYPE_RNG) {
            Some(i) => Some(as_saved(entries[i])),
            None => None,
        }),
    decreases entries.len(),
{
    if entries.len() > 0 {
        let front = entries.drop_last();
        lemma_captured_singletons(front);
        lemma_last_place(front, TYPE_BALLOON);
        lemma_last_place(front, TYPE_VSOCK);
        lemma_last_place(front, TYPE_RNG);
        if last_place(front, TYPE_BALLOON) is Some {
            assert(entries[last_place(front, TYPE_BALLOON)->0] == front[last_place(
                front,
                TYPE_BALLOON,
            )->0]);
        }
        if last_place(front, TYPE_VSOCK) is Some {
            assert(entries[last_place(front, TYPE_VSOCK)->0] == front[last_place(
                front,
                TYPE_VSOCK,
            )->0]);
        }
        if last_place(front, TYPE_RNG) is Some {
            assert(entries[last_place(front, TYPE_RNG)->0] == front[last_place(front, TYPE_RNG)->0]);
        }
    }
}

/// Whether the device of `e` can be restored from its own snapshot into guest memory
/// `mem` on a machine with `mem_size_mib` MiB: it has the queues of its kind, within the
/// largest size, and acknowledges only features that it offers; if it is activated, its
/// queues can be served in `mem`; a vsock device has a path for its host side; a balloon
/// does not grow beyond the memory of the machine.
pub open spec fn device_sound(device: VirtioDevice, mem: GuestMemory, mem_size_mib: u32) -> bool {
    let kind = kind_saved(device);
    &&& kind.virtio_state().activated ==> all_valid_in(kind.virtio_state().queues, &mem)
    &&& match device {
        VirtioDevice::Balloon(dev) => dev.amount_mib <= mem_size_mib && kind.virtio_state().fits(
            TYPE_BALLOON,
            BALLOON_NUM_QUEUES as nat,
            MAX_QUEUE_SIZE,
        ),
        VirtioDevice::Block(_) => kind.virtio_state().fits(
            TYPE_BLOCK,
            BLOCK_NUM_QUEUES as nat,
            MAX_QUEUE_SIZE,
        ),
        VirtioDevice::Net(_) => kind.virtio_state().fits(
            TYPE_NET,
            NET_NUM_QUEUES as nat,
            MAX_QUEUE_SIZE,
        ),
        VirtioDevice::Vsock(dev) => dev.backend.uds_path@.len() > 0 && kind.virtio_state().fits(
            TYPE_VSOCK,
            VSOCK_NUM_QUEUES as nat,
            MAX_QUEUE_SIZE,
        ),
        VirtioDevice::Entropy(_) => kind.virtio_state().fits(
            TYPE_RNG,
            RNG_NUM_QUEUES as nat,
            MAX_QUEUE_SIZE,
        ),
    }
}

/// Whether `entries` are the devices of a valid registry: no two with the same type and
/// identifier or with overlapping register windows, each filed under the type of its
/// device, with an interrupt line, and sound if a snapshot holds it.
pub open spec fn topology_sound(entries: Seq<MmioEntry>, mem: GuestMemory, mem_size_mib: u32) -> bool {
    &&& keys_distinct(entries)
    &&& regions_disjoint(entries)
    &&& forall|i: int|
        0 <= i < entries.len() ==> {
            &&& (#[trigger] entries[i]).device_type
                == entries[i].device.inner.device.spec_device_type()
            &&& entries[i].device.resources.gsi is Some
            &&& snapshotted(entries[i]) ==> device_sound(
                entries[i].device.inner.device,
                mem,
                mem_size_mib,
            )
        }
}

/// Whether `world` holds, besides what was on the bus `bus` before, exactly devices of
/// `entries` whose places are in `done`.
pub open spec fn world_covers(
    world: RestoredWorld,
    entries: Seq<MmioEntry>,
    done: Set<int>,
    bus: Map<u64, (u64, u64)>,
) -> bool {
    &&& forall|j: int|
        0 <= j < world.entries.len() ==> exists|d: int|
            0 <= d < entries.len() && done.contains(d) && #[trigger] world.entries[j] == as_saved(
                #[trigger] entries[d],
            )
    &&& forall|b: u64| #[trigger]
        world.bus.contains_key(b) ==> (bus.contains_key(b) && bus[b].0 == world.bus[b].0)
            || exists|d: int|
            0 <= d < entries.len() && done.contains(d) && b == (
            #[trigger] entries[d]).device.resources.addr && world.bus[b].0
                == entries[d].device.resources.len
    &&& forall|i: int|
        0 <= i < entries.len() ==> !overlaps_any(
            bus,
            (#[trigger] entries[i]).device.resources.addr,
            entries[i].device.resources.len,
        )
}

/// Whether the network device of `e`, if it is one and exposes the metadata service,
/// finds the service in `world`.
pub open spec fn finds_mmds(world: RestoredWorld, e: MmioEntry) -> bool {
    exposed_mmds(e) is Some ==> world.resources.mmds is Some
}

/// A device of a sound registry that is not yet in the world is restored from its own
/// snapshot: it comes behind the devices of the world, and the world covers it then.
pub proof fn lemma_restores(
    world: RestoredWorld,
    entries: Seq<MmioEntry>,
    i: int,
    done: Set<int>,
    bus: Map<u64, (u64, u64)>,
    mem: GuestMemory,
)
    requires
        topology_sound(entries, mem, world.resources.mem_size_mib),
        world_covers(world, entries, done, bus),
        0 <= i < entries.len(),
        !done.contains(i),
        snapshotted(entries[i]),
        finds_mmds(world, entries[i]),
    ensures
        item_applied(world, as_saved(entries[i]), mem) matches Ok(next) && {
            &&& next.entries == world.entries.push(as_saved(entries[i]))
            &&& world_covers(next, entries, done.insert(i), bus)
            &&& next.resources.mmds == world.resources.mmds
            &&& next.resources.mem_size_mib == world.resources.mem_size_mib
        },
{
    let e = entries[i];
    let item = as_saved(e);
    let info = e.device.resources;
    assert(item.kind_state() == kind_saved(e.device.inner.device));
    assert(item_checked(item, world.resources) is Ok);
    let resources = item_checked(item, world.resources)->Ok_0;
    let checked = RestoredWorld { resources, ..world };
    assert(!already_held(checked.entries, item)) by {
        if already_held(checked.entries, item) {
            let j = choose|j: int|
                0 <= j < world.entries.len() && (#[trigger] world.entries[j]).device_type()
                    == item.device_type() && world.entries[j].device_id() == item.device_id();
            let d = choose|d: int|
                0 <= d < entries.len() && done.contains(d) && #[trigger] world.entries[j]
                    == as_saved(#[trigger] entries[d]);
            assert(entries[d].device_type == entries[i].device_type);
            assert(entries[d].device_id@ == entries[i].device_id@);
            if d < i {
                assert(!(entries[d].device_type == entries[i].device_type && entries[d].device_id@
                    == entries[i].device_id@));
            } else {
                assert(!(entries[i].device_type == entries[d].device_type && entries[i].device_id@
                    == entries[d].device_id@));
            }
        }
    }
    assert(!overlaps_any(world.bus, info.addr, info.len)) by {
        if overlaps_any(world.bus, info.addr, info.len) {
            let b = choose|b: u64| #[trigger]
                world.bus.contains_key(b) && regions_overlap(
                    info.addr,
                    info.len,
                    b,
                    world.bus[b].0,
                );
            if bus.contains_key(b) && bus[b].0 == world.bus[b].0 {
                assert(overlaps_any(bus, info.addr, info.len));
            } else {
                let d = choose|d: int|
                    0 <= d < entries.len() && done.contains(d) && b == (
                    #[trigger] entries[d]).device.resources.addr && world.bus[b].0
                        == entries[d].device.resources.len;
                if d < i {
                    assert(!regions_overlap(
                        entries[d].device.resources.addr,
                        entries[d].device.resources.len,
                        entries[i].device.resources.addr,
                        entries[i].device.resources.len,
                    ));
                } else {
                    assert(!regions_overlap(
                        entries[i].device.resources.addr,
                        entries[i].device.resources.len,
                        entries[d].device.resources.addr,
                        entries[d].device.resources.len,
                    ));
                }
            }
        }
    }
    assert(window_valid(info.addr, info.len));
    let next = item_registered(checked, item, mem)->Ok_0;
    assert(item_registered(checked, item, mem) is Ok);
    assert(world_covers(next, entries, done.insert(i), bus)) by {
        assert forall|j: int| 0 <= j < next.entries.len() implies exists|d: int|
            0 <= d < entries.len() && done.insert(i).contains(d) && #[trigger] next.entries[j]
                == as_saved(#[trigger] entries[d]) by {
            if j < world.entries.len() {
                let d = choose|d: int|
                    0 <= d < entries.len() && done.contains(d) && #[trigger] world.entries[j]
                        == as_saved(#[trigger] entries[d]);
                assert(done.insert(i).contains(d) && next.entries[j] == as_saved(entries[d]));
            } else {
                assert(done.insert(i).contains(i) && next.entries[j] == as_saved(entries[i]));
            }
        }
        assert forall|b: u64| #[trigger] next.bus.contains_key(b) implies (bus.contains_key(b)
            && bus[b].0 == next.bus[b].0) || exists|d: int|
            0 <= d < entries.len() && done.insert(i).contains(d) && b == (
            #[trigger] entries[d]).device.resources.addr && next.bus[b].0
                == entries[d].device.resources.len by {
            if b == info.addr {
                assert(done.insert(i).contains(i) && b == entries[i].device.resources.addr);
            } else {
                assert(world.bus.contains_key(b));
                if !(bus.contains_key(b) && bus[b].0 == world.bus[b].0) {
                    let d = choose|d: int|
                        0 <= d < entries.len() && done.contains(d) && b == (
                        #[trigger] entries[d]).device.resources.addr && world.bus[b].0
                            == entries[d].device.resources.len;
                    assert(done.insert(i).contains(d) && b == entries[d].device.resources.addr);
                }
            }
        }
    }
}

/// The devices at `places` in the form in which a snapshot holds them.
pub open spec fn saved_at(entries: Seq<MmioEntry>, places: Seq<int>) -> Seq<SavedDevice> {
    places.map_values(|p: int| as_saved(entries[p]))
}

/// Whether the devices at `places` can be restored into `world`, which holds the devices
/// at `done`: the places are places of different devices that a snapshot holds and that
/// are not in the world, and their network devices find the metadata service.
pub open spec fn restorable_places(
    world: RestoredWorld,
    entries: Seq<MmioEntry>,
    places: Seq<int>,
    done: Set<int>,
) -> bool {
    &&& forall|k: int|
        0 <= k < places.len() ==> {
            &&& 0 <= #[trigger] places[k] < entries.len()
            &&& !done.contains(places[k])
            &&& snapshotted(entries[places[k]])
            &&& finds_mmds(world, entries[places[k]])
        }
    &&& forall|k: int, l: int| 0 <= k < l < places.len() ==> places[k] != places[l]
}

/// Devices of a sound registry that are not yet in the world are restored from their own
/// snapshot one after the other: they come behind the devices of the world, in their
/// order, and the world covers them then.
pub proof fn lemma_restores_all(
    world: RestoredWorld,
    entries: Seq<MmioEntry>,
    places: Seq<int>,
    done: Set<int>,
    bus: Map<u64, (u64, u64)>,
    mem: GuestMemory,
)
    requires
        topology_sound(entries, mem, world.resources.mem_size_mib),
        world_covers(world, entries, done, bus),
        restorable_places(world, entries, places, done),
    ensures
        items_applied(world, saved_at(entries, places), mem) matches Ok(next) && {
            &&& next.entries == world.entries + saved_at(entries, places)
            &&& world_covers(next, entries, done.union(places.to_set()), bus)
            &&& next.resources.mmds == world.resources.mmds
            &&& next.resources.mem_size_mib == world.resources.mem_size_mib
        },
    decreases places.len(),
{
    let items = saved_at(entries, places);
    if places.len() == 0 {
        assert(world.entries + items =~= world.entries);
        assert(done.union(places.to_set()) =~= done);
    } else {
        let first = places[0];
        lemma_restores(world, entries, first, done, bus, mem);
        let mid = item_applied(world, as_saved(entries[first]), mem)->Ok_0;
        let rest = places.drop_first();
        assert(items[0] == as_saved(entries[first]));
        assert(items.drop_first() =~= saved_at(entries, rest));
        assert(restorable_places(mid, entries, rest, done.insert(first))) by {
            assert forall|k: int| 0 <= k < rest.len() implies {
                &&& 0 <= #[trigger] rest[k] < entries.len()
                &&& !done.insert(first).contains(rest[k])
                &&& snapshotted(entries[rest[k]])
                &&& finds_mmds(mid, entries[rest[k]])
            } by {
                assert(rest[k] == places[k + 1]);
            }
            assert forall|k: int, l: int| 0 <= k < l < rest.len() implies rest[k] != rest[l] by {
                assert(rest[k] == places[k + 1] && rest[l] == places[l + 1]);
            }
        }
        lemma_restores_all(mid, entries, rest, done.insert(first), bus, mem);
        let next = items_applied(mid, saved_at(entries, rest), mem)->Ok_0;
        assert(next.entries =~= world.entries + items);
        assert(done.insert(first).union(rest.to_set()) =~= done.union(places.to_set())) by {
            assert forall|p: int|
                done.insert(first).union(rest.to_set()).contains(p) == done.union(
                    places.to_set(),
                ).contains(p) by {
                if rest.to_set().contains(p) {
                    let k = choose|k: int| 0 <= k < rest.len() && rest[k] == p;
                    assert(places[k + 1] == p);
                }
                if places.to_set().contains(p) {
                    let k = choose|k: int| 0 <= k < places.len() && places[k] == p;
                    if k > 0 {
                        assert(rest[k - 1] == p);
                    }
                }
            }
        }
    }
}

/// The place `place`, if there is one, as a sequence of places.
pub open spec fn place_seq(place: Option<int>) -> Seq<int> {
    match place {
        Some(i) => seq![i],
        None => Seq::empty(),
    }
}

/// The places of the devices that a snapshot of `entries` holds, in the order in which
/// they are restored: the last balloon device, the block devices that this process
/// serves, the network devices, the last vsock device, the last entropy device.
pub open spec fn restore_places(entries: Seq<MmioEntry>) -> Seq<int> {
    place_seq(last_place(entries, TYPE_BALLOON)) + block_places(entries) + net_places(entries)
        + place_seq(last_place(entries, TYPE_VSOCK)) + place_seq(last_place(entries, TYPE_RNG))
}

/// Restoring one item is restoring the sequence of that one item.
pub proof fn lemma_single_item(world: RestoredWorld, item: Option<SavedDevice>, mem: GuestMemory)
    ensures
        option_applied(world, item, mem) == items_applied(world, item_seq(item), mem),
{
    match item {
        Some(x) => {
            let items = item_seq(item);
            assert(items[0] == x);
            assert(items.drop_first() =~= Seq::<SavedDevice>::empty());
            match item_applied(world, x, mem) {
                Ok(next) => {
                    assert(items_applied(next, items.drop_first(), mem) == Ok::<
                        RestoredWorld,
                        DevicePersistError,
                    >(next));
                },
                Err(_) => {},
            }
        },
        None => {},
    }
}

/// Whether `places` holds no place twice and no place of `others`.
pub open spec fn apart(places: Seq<int>, others: Seq<int>) -> bool {
    forall|k: int, l: int|
        0 <= k < places.len() && 0 <= l < others.len() ==> #[trigger] places[k] != #[trigger] others[l]
}

/// The devices at `places`, which are not among the devices at `before` that the world
/// holds, are restored behind them.
pub proof fn lemma_group_restored(
    world: RestoredWorld,
    entries: Seq<MmioEntry>,
    before: Seq<int>,
    places: Seq<int>,
    bus: Map<u64, (u64, u64)>,
    mem: GuestMemory,
)
    requires
        topology_sound(entries, mem, world.resources.mem_size_mib),
        world_covers(world, entries, before.to_set(), bus),
        world.entries == saved_at(entries, before),
        apart(places, before),
        restorable_places(world, entries, places, Set::<int>::empty()),
    ensures
        items_applied(world, saved_at(entries, places), mem) matches Ok(next) && {
            &&& next.entries == saved_at(entries, before + places)
            &&& world_covers(next, entries, (before + places).to_set(), bus)
            &&& next.resources.mmds == world.resources.mmds
            &&& next.resources.mem_size_mib == world.resources.mem_size_mib
            &&& next.resources.mmds_instance_id == world.resources.mmds_instance_id
        },
{
    let done = before.to_set();
    assert(restorable_places(world, entries, places, done)) by {
        assert forall|k: int| 0 <= k < places.len() implies !done.contains(#[trigger] places[k]) by {
            if done.contains(places[k]) {
                let l = choose|l: int| 0 <= l < before.len() && before[l] == places[k];
                assert(places[k] != before[l]);
            }
        }
    }
    lemma_restores_all(world, entries, places, done, bus, mem);
    let next = items_applied(world, saved_at(entries, places), mem)->Ok_0;
    assert(next.entries =~= saved_at(entries, before + places));
    assert(done.union(places.to_set()) =~= (before + places).to_set()) by {
        assert forall|p: int|
            done.union(places.to_set()).contains(p) == (before + places).to_set().contains(p) by {
            if done.contains(p) {
                let l = choose|l: int| 0 <= l < before.len() && before[l] == p;
                assert((before + places)[l] == p);
            }
            if places.to_set().contains(p) {
                let l = choose|l: int| 0 <= l < places.len() && places[l] == p;
                assert((before + places)[before.len() + l] == p);
            }
            if (before + places).to_set().contains(p) {
                let l = choose|l: int| 0 <= l < (before + places).len() && (before + places)[l] == p;
                if l < before.len() {
                    assert(before[l] == p);
                } else {
                    assert(places[l - before.len()] == p);
                }
            }
        }
    }
    lemma_items_keep_instance_id(world, saved_at(entries, places), mem);
}

/// Restoring devices does not touch the instance identifier of the metadata service.
pub proof fn lemma_items_keep_instance_id(world: RestoredWorld, items: Seq<SavedDevice>, mem: GuestMemory)
    ensures
        items_applied(world, items, mem) matches Ok(after) ==> after.resources.mmds_instance_id
            == world.resources.mmds_instance_id,
    decreases items.len(),
{
    if items.len() > 0 {
        match item_applied(world, items[0], mem) {
            Ok(next) => {
                lemma_items_keep_instance_id(next, items.drop_first(), mem);
            },
            Err(_) => {},
        }
    }
}

/// The places of the devices that a snapshot holds, by the kind of the device: no place
/// is named twice, each is the place of a device of the kind that names it, and a
/// snapshot holds the device there.
pub proof fn lemma_places_by_kind(entries: Seq<MmioEntry>)
    ensures
        ({
            let balloon = place_seq(last_place(entries, TYPE_BALLOON));
            let blocks = block_places(entries);
            let nets = net_places(entries);
            let vsock = place_seq(last_place(entries, TYPE_VSOCK));
            let entropy = place_seq(last_place(entries, TYPE_RNG));
            &&& apart(blocks, balloon)
            &&& apart(nets, balloon + blocks)
            &&& apart(vsock, balloon + blocks + nets)
            &&& apart(entropy, balloon + blocks + nets + vsock)
            &&& places_of_type(entries, balloon, TYPE_BALLOON)
            &&& places_of_type(entries, blocks, TYPE_BLOCK)
            &&& places_of_type(entries, nets, TYPE_NET)
            &&& places_of_type(entries, vsock, TYPE_VSOCK)
            &&& places_of_type(entries, entropy, TYPE_RNG)
        }),
{
    lemma_captured_blocks(entries);
    lemma_captured_nets(entries);
    lemma_last_place(entries, TYPE_BALLOON);
    lemma_last_place(entries, TYPE_VSOCK);
    lemma_last_place(entries, TYPE_RNG);
    let balloon = place_seq(last_place(entries, TYPE_BALLOON));
    let blocks = block_places(entries);
    let nets = net_places(entries);
    let vsock = place_seq(last_place(entries, TYPE_VSOCK));
    let entropy = place_seq(last_place(entries, TYPE_RNG));
    assert(places_of_type(entries, blocks, TYPE_BLOCK)) by {
        assert forall|k: int| 0 <= k < blocks.len() implies {
            &&& 0 <= #[trigger] blocks[k] < entries.len()
            &&& entries[blocks[k]].device.inner.device.spec_device_type() == TYPE_BLOCK
            &&& snapshotted(entries[blocks[k]])
        } by {
            assert(entries[blocks[k]].device.inner.device is Block);
        }
    }
    assert(places_of_type(entries, nets, TYPE_NET)) by {
        assert forall|k: int| 0 <= k < nets.len() implies {
            &&& 0 <= #[trigger] nets[k] < entries.len()
            &&& entries[nets[k]].device.inner.device.spec_device_type() == TYPE_NET
            &&& snapshotted(entries[nets[k]])
        } by {
            assert(entries[nets[k]].device.inner.device is Net);
        }
    }
    lemma_types_apart(entries, blocks, TYPE_BLOCK, balloon, TYPE_BALLOON);
    lemma_types_apart(entries, nets, TYPE_NET, balloon, TYPE_BALLOON);
    lemma_types_apart(entries, nets, TYPE_NET, blocks, TYPE_BLOCK);
    lemma_types_apart(entries, vsock, TYPE_VSOCK, balloon, TYPE_BALLOON);
    lemma_types_apart(entries, vsock, TYPE_VSOCK, blocks, TYPE_BLOCK);
    lemma_types_apart(entries, vsock, TYPE_VSOCK, nets, TYPE_NET);
    lemma_types_apart(entries, entropy, TYPE_RNG, balloon, TYPE_BALLOON);
    lemma_types_apart(entries, entropy, TYPE_RNG, blocks, TYPE_BLOCK);
    lemma_types_apart(entries, entropy, TYPE_RNG, nets, TYPE_NET);
    lemma_types_apart(entries, entropy, TYPE_RNG, vsock, TYPE_VSOCK);
    lemma_apart_from_both(nets, balloon, blocks);
    lemma_apart_from_both(vsock, balloon, blocks);
    lemma_apart_from_both(vsock, balloon + blocks, nets);
    lemma_apart_from_both(entropy, balloon, blocks);
    lemma_apart_from_both(entropy, balloon + blocks, nets);
    lemma_apart_from_both(entropy, balloon + blocks + nets, vsock);
}

/// Whether `places` are places of devices of the type `device_type` that a snapshot
/// holds, none named twice.
pub open spec fn places_of_type(entries: Seq<MmioEntry>, places: Seq<int>, device_type: u32) -> bool {
    &&& forall|k: int|
        0 <= k < places.len() ==> {
            &&& 0 <= #[trigger] places[k] < entries.len()
            &&& entries[places[k]].device.inner.device.spec_device_type() == device_type
            &&& snapshotted(entries[places[k]])
        }
    &&& forall|k: int, l: int| 0 <= k < l < places.len() ==> places[k] != places[l]
}

/// Places of devices of different types are different places.
pub proof fn lemma_types_apart(
    entries: Seq<MmioEntry>,
    places: Seq<int>,
    device_type: u32,
    others: Seq<int>,
    other_type: u32,
)
    requires
        places_of_type(entries, places, device_type),
        places_of_type(entries, others, other_type),
        device_type != other_type,
    ensures
        apart(places, others),
{
}

/// Places that are apart from two groups are apart from the two together.
pub proof fn lemma_apart_from_both(places: Seq<int>, first: Seq<int>, second: Seq<int>)
    requires
        apart(places, first),
        apart(places, second),
    ensures
        apart(places, first + second),
{
    assert forall|k: int, l: int|
        0 <= k < places.len() && 0 <= l < (first + second).len() implies #[trigger] places[k]
        != #[trigger] (first + second)[l] by {
        if l < first.len() {
            assert((first + second)[l] == first[l]);
        } else {
            assert((first + second)[l] == second[l - first.len()]);
        }
    }
}

/// Places of devices that a snapshot holds can be restored into a world in which their
/// network devices find the metadata service.
pub proof fn lemma_restorable(
    world: RestoredWorld,
    entries: Seq<MmioEntry>,
    places: Seq<int>,
    device_type: u32,
)
    requires
        places_of_type(entries, places, device_type),
        device_type == TYPE_NET ==> forall|k: int|
            0 <= k < places.len() ==> finds_mmds(world, entries[#[trigger] places[k]]),
    ensures
        restorable_places(world, entries, places, Set::<int>::empty()),
{
    assert forall|k: int| 0 <= k < places.len() implies finds_mmds(
        world,
        entries[#[trigger] places[k]],
    ) by {
        if device_type != TYPE_NET {
            assert(!(entries[places[k]].device.inner.device is Net));
        }
    }
}

/// Saving and restoring gives the devices back.
///
/// Let `entries` be the devices of a sound registry, brought to rest, and `legacy` what is
/// saved of its serial console and real-time clock. Let `world` hold no device, and let
/// the devices of the platform go back into it so that nothing is on its bus where a
/// device of `entries` has its register window. Then restoring the snapshot of the
/// registry in `world` succeeds, and the registry then holds, in the order of
/// [`restore_places`], the devices that the snapshot holds: each saves exactly as the
/// device of `entries` that it was restored from, so it has its type, its identifier, its
/// activation, its register window and its interrupt line.
pub proof fn lemma_round_trip(
    entries: Seq<MmioEntry>,
    legacy: Seq<ConnectedLegacyState>,
    world: RestoredWorld,
    instance_id: Seq<char>,
    mem: GuestMemory,
)
    requires
        topology_sound(entries, mem, world.resources.mem_size_mib),
        world.entries == Seq::<SavedDevice>::empty(),
        legacies_applied(world, legacy) matches Ok(back) && forall|i: int|
            0 <= i < entries.len() ==> !overlaps_any(
                back.bus,
                (#[trigger] entries[i]).device.resources.addr,
                entries[i].device.resources.len,
            ),
    ensures
        restore_outcome(world, captured_with(entries, legacy), instance_id, mem) matches Ok(
            after,
        ) && after.entries == saved_at(entries, restore_places(entries)),
{
    lemma_legacy_keeps_entries(world, legacy);
    let back = legacies_applied(world, legacy)->Ok_0;
    lemma_devices_round_trip(entries, back, instance_id, mem);
    let s = captured(entries);
    let with = captured_with(entries, legacy);
    assert(some_net_exposes_mmds(with) == some_net_exposes_mmds(s));
    assert(devices_outcome(back, with, instance_id, mem) == devices_outcome(
        back,
        s,
        instance_id,
        mem,
    ));
}

/// The virtio devices of a sound registry, brought to rest, are restored from their
/// snapshot into a world that holds no device and nothing on its bus where one of them has
/// its register window.
pub proof fn lemma_devices_round_trip(
    entries: Seq<MmioEntry>,
    world: RestoredWorld,
    instance_id: Seq<char>,
    mem: GuestMemory,
)
    requires
        topology_sound(entries, mem, world.resources.mem_size_mib),
        world.entries == Seq::<SavedDevice>::empty(),
        forall|i: int|
            0 <= i < entries.len() ==> !overlaps_any(
                world.bus,
                (#[trigger] entries[i]).device.resources.addr,
                entries[i].device.resources.len,
            ),
    ensures
        devices_outcome(world, captured(entries), instance_id, mem) matches Ok(after)
            && after.entries == saved_at(entries, restore_places(entries)),
{
    let s = captured(entries);
    let bus = world.bus;
    lemma_places_by_kind(entries);
    lemma_snapshot_items(entries);
    let balloon = place_seq(last_place(entries, TYPE_BALLOON));
    let blocks = block_places(entries);
    let nets = net_places(entries);
    let vsock = place_seq(last_place(entries, TYPE_VSOCK));
    let entropy = place_seq(last_place(entries, TYPE_RNG));
    let none = Seq::<int>::empty();

    // the balloon device
    assert(world_covers(world, entries, none.to_set(), bus));
    assert(world.entries =~= saved_at(entries, none));
    lemma_restorable(world, entries, balloon, TYPE_BALLOON);
    lemma_group_restored(world, entries, none, balloon, bus, mem);
    lemma_single_item(world, balloon_item(s), mem);
    let w1 = option_applied(world, balloon_item(s), mem)->Ok_0;
    assert(none + balloon =~= balloon);

    // the block devices
    lemma_restorable(w1, entries, blocks, TYPE_BLOCK);
    lemma_group_restored(w1, entries, balloon, blocks, bus, mem);
    let w2 = items_applied(w1, block_items(s), mem)->Ok_0;

    // the metadata service and the network devices
    let w2c = RestoredWorld { resources: mmds_configured(w2.resources, s, instance_id), ..w2 };
    lemma_nets_find_mmds(entries, w2, instance_id);
    lemma_restorable(w2c, entries, nets, TYPE_NET);
    lemma_group_restored(w2c, entries, balloon + blocks, nets, bus, mem);
    let w3 = items_applied(w2c, net_items(s), mem)->Ok_0;

    // the vsock device
    lemma_restorable(w3, entries, vsock, TYPE_VSOCK);
    lemma_group_restored(w3, entries, balloon + blocks + nets, vsock, bus, mem);
    lemma_single_item(w3, vsock_item(s), mem);
    let w4 = option_applied(w3, vsock_item(s), mem)->Ok_0;

    // the entropy device
    lemma_restorable(w4, entries, entropy, TYPE_RNG);
    lemma_group_restored(w4, entries, balloon + blocks + nets + vsock, entropy, bus, mem);
    lemma_single_item(w4, entropy_item(s), mem);
}

/// The items of the snapshot of `entries` are the devices at the places of their kinds.
pub proof fn lemma_snapshot_items(entries: Seq<MmioEntry>)
    ensures
        item_seq(balloon_item(captured(entries))) == saved_at(
            entries,
            place_seq(last_place(entries, TYPE_BALLOON)),
        ),
        block_items(captured(entries)) == saved_at(entries, block_places(entries)),
        net_items(captured(entries)) == saved_at(entries, net_places(entries)),
        item_seq(vsock_item(captured(entries))) == saved_at(
            entries,
            place_seq(last_place(entries, TYPE_VSOCK)),
        ),
        item_seq(entropy_item(captured(entries))) == saved_at(
            entries,
            place_seq(last_place(entries, TYPE_RNG)),
        ),
{
    let s = captured(entries);
    lemma_captured_blocks(entries);
    lemma_captured_nets(entries);
    lemma_captured_singletons(entries);
    assert(block_items(s) =~= saved_at(entries, block_places(entries)));
    assert(net_items(s) =~= saved_at(entries, net_places(entries)));
    assert(item_seq(balloon_item(s)) =~= saved_at(
        entries,
        place_seq(last_place(entries, TYPE_BALLOON)),
    ));
    assert(item_seq(vsock_item(s)) =~= saved_at(
        entries,
        place_seq(last_place(entries, TYPE_VSOCK)),
    ));
    assert(item_seq(entropy_item(s)) =~= saved_at(
        entries,
        place_seq(last_place(entries, TYPE_RNG)),
    ));
}

/// Once the metadata service is configured as the snapshot of `entries` asks for it,
/// every network device of `entries` that exposes the service finds it.
pub proof fn lemma_nets_find_mmds(entries: Seq<MmioEntry>, world: RestoredWorld, instance_id: Seq<char>)
    ensures
        forall|i: int|
            0 <= i < entries.len() ==> finds_mmds(
                RestoredWorld {
                    resources: mmds_configured(world.resources, captured(entries), instance_id),
                    ..world
                },
                #[trigger] entries[i],
            ),
{
    lemma_mmds_record_is_first_exposed(entries);
}

/// Every device that a snapshot holds comes back: a device of `entries` that a snapshot
/// holds has a place among [`restore_places`], unless a later device of the registry is a
/// balloon, vsock or entropy device as it is; of these kinds there is one device.
pub proof fn lemma_restore_places_complete(entries: Seq<MmioEntry>, i: int)
    requires
        0 <= i < entries.len(),
        snapshotted(entries[i]),
        forall|j: int|
            i < j < entries.len() ==> !((#[trigger] entries[j]).device.inner.device.spec_device_type()
                == entries[i].device.inner.device.spec_device_type() && !(
            entries[i].device.inner.device is Block) && !(entries[i].device.inner.device is Net)),
    ensures
        restore_places(entries).contains(i),
{
    lemma_captured_blocks(entries);
    lemma_captured_nets(entries);
    let device_type = entries[i].device.inner.device.spec_device_type();
    lemma_last_place(entries, device_type);
    let balloon = place_seq(last_place(entries, TYPE_BALLOON));
    let blocks = block_places(entries);
    let nets = net_places(entries);
    let vsock = place_seq(last_place(entries, TYPE_VSOCK));
    let entropy = place_seq(last_place(entries, TYPE_RNG));
    let all = restore_places(entries);
    match entries[i].device.inner.device {
        VirtioDevice::Block(_) => {
            let k = choose|k: int| 0 <= k < blocks.len() && blocks[k] == i;
            assert(all[balloon.len() + k] == i);
        },
        VirtioDevice::Net(_) => {
            let k = choose|k: int| 0 <= k < nets.len() && nets[k] == i;
            assert(all[balloon.len() + blocks.len() + k] == i);
        },
        VirtioDevice::Balloon(_) => {
            assert(last_place(entries, TYPE_BALLOON) == Some(i));
            assert(all[0] == i);
        },
        VirtioDevice::Vsock(_) => {
            assert(last_place(entries, TYPE_VSOCK) == Some(i));
            assert(all[(balloon.len() + blocks.len() + nets.len()) as int] == i);
        },
        VirtioDevice::Entropy(_) => {
            assert(last_place(entries, TYPE_RNG) == Some(i));
            assert(all[(balloon.len() + blocks.len() + nets.len() + vsock.len()) as int] == i);
        },
    }
}

/// A block device that a process outside this one serves is not in a snapshot: no block
/// device of the snapshot has its identifier.
pub proof fn lemma_vhost_user_block_left_out(entries: Seq<MmioEntry>, i: int, k: int)
    requires
        keys_distinct(entries),
        forall|j: int|
            0 <= j < entries.len() ==> (#[trigger] entries[j]).device_type
                == entries[j].device.inner.device.spec_device_type(),
        0 <= i < entries.len(),
        !snapshotted(entries[i]),
        0 <= k < captured_blocks(entries).len(),
    ensures
        captured_blocks(entries)[k].device_id != entries[i].device_id@,
{
    lemma_captured_blocks(entries);
    let p = block_places(entries)[k];
    assert(SavedDevice::Block(captured_blocks(entries)[k]) == as_saved(entries[p]));
    assert(p != i);
    if p < i {
        assert(!(entries[p].device_type == entries[i].device_type && entries[p].device_id@
            == entries[i].device_id@));
    } else {
        assert(!(entries[i].device_type == entries[p].device_type && entries[i].device_id@
            == entries[p].device_id@));
    }
}

/// The devices that restoring `items` adds to the world are `items` themselves, wherever
/// it is done: the devices come back with the resources that were saved.
pub proof fn lemma_items_come_back(world: RestoredWorld, items: Seq<SavedDevice>, mem: GuestMemory)
    ensures
        items_applied(world, items, mem) matches Ok(after) ==> after.entries == world.entries
            + items,
    decreases items.len(),
{
    if items.len() == 0 {
        assert(world.entries + items =~= world.entries);
    } else {
        match item_applied(world, items[0], mem) {
            Ok(next) => {
                lemma_items_come_back(next, items.drop_first(), mem);
                match items_applied(next, items.drop_first(), mem) {
                    Ok(after) => {
                        assert(after.entries =~= world.entries + items);
                    },
                    Err(_) => {},
                }
            },
            Err(_) => {},
        }
    }
}

/// The saved devices of the snapshot `s`, in the order in which they are restored.
pub open spec fn restore_order(s: DeviceStatesView) -> Seq<SavedDevice> {
    item_seq(balloon_item(s)) + block_items(s) + net_items(s) + item_seq(vsock_item(s)) + item_seq(
        entropy_item(s),
    )
}

/// The item `item`, if there is one, as a sequence of items.
pub open spec fn item_seq(item: Option<SavedDevice>) -> Seq<SavedDevice> {
    match item {
        Some(item) => seq![item],
        None => Seq::empty(),
    }
}

/// Restoring is repeatable: whenever restoring the snapshot `s` succeeds, from whatever
/// world without devices, the registry holds the devices of `s`, each with the register
/// window and the interrupt line that `s` has saved. Two restores of one snapshot so give
/// the same devices with the same resources.
pub proof fn lemma_restore_is_repeatable(
    first: RestoredWorld,
    second: RestoredWorld,
    s: DeviceStatesView,
    instance_id: Seq<char>,
    mem: GuestMemory,
)
    requires
        first.entries == Seq::<SavedDevice>::empty(),
        second.entries == Seq::<SavedDevice>::empty(),
    ensures
        restore_outcome(first, s, instance_id, mem) matches Ok(after) ==> after.entries
            == restore_order(s),
        restore_outcome(first, s, instance_id, mem) is Ok && restore_outcome(
            second,
            s,
            instance_id,
            mem,
        ) is Ok ==> restore_outcome(first, s, instance_id, mem)->Ok_0.entries == restore_outcome(
            second,
            s,
            instance_id,
            mem,
        )->Ok_0.entries,
{
    lemma_outcome_entries(first, s, instance_id, mem);
    lemma_outcome_entries(second, s, instance_id, mem);
}

/// Putting the devices of the platform back touches neither the virtio devices nor the
/// table of resources.
pub proof fn lemma_legacy_keeps_entries(world: RestoredWorld, legacy: Seq<ConnectedLegacyState>)
    ensures
        legacies_applied(world, legacy) matches Ok(after) ==> after.entries == world.entries
            && after.resources == world.resources,
    decreases legacy.len(),
{
    if legacy.len() > 0 {
        match legacy_applied(world, legacy[0]) {
            Ok(next) => {
                lemma_legacy_keeps_entries(next, legacy.drop_first());
            },
            Err(_) => {},
        }
    }
}

/// Whenever restoring the snapshot `s` succeeds, the registry holds behind the devices of
/// the world the devices of `s`.
pub proof fn lemma_outcome_entries(
    world: RestoredWorld,
    s: DeviceStatesView,
    instance_id: Seq<char>,
    mem: GuestMemory,
)
    ensures
        restore_outcome(world, s, instance_id, mem) matches Ok(after) ==> after.entries
            == world.entries + restore_order(s),
{
    if restore_outcome(world, s, instance_id, mem) is Ok {
        lemma_legacy_keeps_entries(world, s.legacy_devices);
        let w0 = legacies_applied(world, s.legacy_devices)->Ok_0;
        let w1 = option_applied(w0, balloon_item(s), mem)->Ok_0;
        let w2 = items_applied(w1, block_items(s), mem)->Ok_0;
        let w2c = RestoredWorld { resources: mmds_configured(w2.resources, s, instance_id), ..w2 };
        let w3 = items_applied(w2c, net_items(s), mem)->Ok_0;
        let w4 = option_applied(w3, vsock_item(s), mem)->Ok_0;
        let w5 = option_applied(w4, entropy_item(s), mem)->Ok_0;
        lemma_items_come_back(w1, block_items(s), mem);
        lemma_items_come_back(w2c, net_items(s), mem);
        assert(w1.entries =~= world.entries + item_seq(balloon_item(s)));
        assert(w4.entries =~= w3.entries + item_seq(vsock_item(s)));
        assert(w5.entries =~= w4.entries + item_seq(entropy_item(s)));
        assert(w5.entries =~= world.entries + restore_order(s));
    }
}

/// Bringing a device to rest keeps it sound, and keeps its type, its identifier and its
/// activation.
pub proof fn lemma_quiesced_device_is_sound(
    pre: VirtioDevice,
    post: VirtioDevice,
    mem: GuestMemory,
    mem_size_mib: u32,
)
    requires
        quiesced(pre, post),
        snapshotted_device(pre) ==> device_sound(pre, mem, mem_size_mib),
    ensures
        post.spec_device_type() == pre.spec_device_type(),
        post.spec_id() == pre.spec_id(),
        post.spec_is_activated() == pre.spec_is_activated(),
        snapshotted_device(post) == snapshotted_device(pre),
        snapshotted_device(post) ==> device_sound(post, mem, mem_size_mib),
{
    match pre {
        VirtioDevice::Vsock(dev) => {
            if dev.base.activated && dev.can_send_event() {
                let sent = post->Vsock_0;
                let before = dev.base.queues@;
                let after = sent.base.queues@;
                assert forall|i: int| 0 <= i < after.len() implies (#[trigger] after[i]).max_size
                    == before[i].max_size && after[i].size == before[i].size && after[i].valid_in(
                    &mem,
                ) == before[i].valid_in(&mem) by {}
            }
        },
        _ => {},
    }
}

/// Whether a snapshot holds `device`: every device but a block device that a process
/// outside this one serves.
pub open spec fn snapshotted_device(device: VirtioDevice) -> bool {
    !(device matches VirtioDevice::Block(dev) && dev.vhost_user)
}

/// Saving keeps a registry sound: the devices that were brought to rest are the devices of
/// a sound registry if they were before.
pub proof fn lemma_quiescing_keeps_sound(
    pre: Seq<MmioEntry>,
    post: Seq<MmioEntry>,
    mem: GuestMemory,
    mem_size_mib: u32,
)
    requires
        all_quiesced(pre, post),
        topology_sound(pre, mem, mem_size_mib),
    ensures
        topology_sound(post, mem, mem_size_mib),
{
    assert forall|i: int| 0 <= i < post.len() implies {
        &&& (#[trigger] post[i]).device_type == post[i].device.inner.device.spec_device_type()
        &&& post[i].device.resources.gsi is Some
        &&& snapshotted(post[i]) ==> device_sound(post[i].device.inner.device, mem, mem_size_mib)
    } by {
        assert(pre[i].device_type == pre[i].device.inner.device.spec_device_type());
        lemma_quiesced_device_is_sound(
            pre[i].device.inner.device,
            post[i].device.inner.device,
            mem,
            mem_size_mib,
        );
    }
    assert(keys_distinct(post)) by {
        assert forall|i: int, j: int| 0 <= i < j < post.len() implies !((
        #[trigger] post[i]).device_type == (#[trigger] post[j]).device_type && post[i].device_id@
            == post[j].device_id@) by {
            assert(!(pre[i].device_type == pre[j].device_type && pre[i].device_id@
                == pre[j].device_id@));
        }
    }
    assert(regions_disjoint(post)) by {
        assert forall|i: int| 0 <= i < post.len() implies window_valid(
            (#[trigger] post[i]).device.resources.addr,
            post[i].device.resources.len,
        ) by {
            assert(window_valid(pre[i].device.resources.addr, pre[i].device.resources.len));
        }
        assert forall|i: int, j: int| 0 <= i < j < post.len() implies !regions_overlap(
            (#[trigger] post[i]).device.resources.addr,
            post[i].device.resources.len,
            (#[trigger] post[j]).device.resources.addr,
            post[j].device.resources.len,
        ) by {
            assert(!regions_overlap(
                pre[i].device.resources.addr,
                pre[i].device.resources.len,
                pre[j].device.resources.addr,
                pre[j].device.resources.len,
            ));
        }
    }
}

} // verus!
