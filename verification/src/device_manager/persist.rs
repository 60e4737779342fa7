//! What a snapshot holds of the devices of a machine.

use vstd::prelude::*;

use crate::device_manager::acpi::ACPIDeviceManager;
use crate::arch::DeviceType;
use crate::device_manager::mmio::{
    handle_of, position_of, same_platform, window_valid, MMIODevice, MMIODeviceInfo,
    MMIODeviceManager, MmioEntry, MmioError, RTC_HANDLE, SERIAL_HANDLE,
};
use crate::devices::acpi::vmgenid::{VMGenIDState, VmGenId, VmGenIdError};
use crate::devices::virtio::balloon::{
    Balloon, BalloonConstructorArgs, BalloonState, BalloonStateView, BALLOON_NUM_QUEUES,
};
use crate::devices::virtio::block::{Block, BlockState, BlockStateView, BLOCK_NUM_QUEUES};
use crate::devices::virtio::device::VirtioDevice;
use crate::devices::virtio::net::{
    Net, NetConstructorArgs, NetPersistError, NetState, NetStateView, NET_NUM_QUEUES,
};
use crate::devices::virtio::persist::{
    inactive, PersistError, VirtioDeviceStateView as VirtioStateView,
};
use crate::devices::virtio::queue::all_valid_in;
use crate::devices::virtio::rng::{Entropy, EntropyState, EntropyStateView, RNG_NUM_QUEUES};
use crate::devices::virtio::transport::{
    MmioTransport, MmioTransportConstructorArgs, MmioTransportState, NOTIFY_REG_OFFSET,
};
use crate::devices::virtio::vsock::{
    reset_sent, Vsock, VsockConstructorArgs, VsockError, VsockState, VsockStateView,
    VsockUdsConstructorArgs, VsockUnixBackend, VsockUnixBackendError, VSOCK_NUM_QUEUES,
};
use crate::devices::virtio::{
    ActivateError, MAX_QUEUE_SIZE, TYPE_BALLOON, TYPE_BLOCK, TYPE_NET, TYPE_RNG, TYPE_VSOCK,
};
use crate::event_manager::EventManager;
use crate::mmds::{Mmds, MmdsVersion};
use crate::resources::{ResourcesError, SharedDeviceView, VmResources, VmResourcesView};
use crate::vstate::bus::{overlaps_any, range_valid, BusError};
use crate::vstate::memory::GuestMemory;
use crate::vstate::vm::{ioevent_actions, HostAction, Vm};

verus! {

/// What is saved of one memory-mapped device.
#[derive(Debug)]
pub struct VirtioDeviceState<T> {
    /// Identifier of the device.
    pub device_id: String,
    /// State of the device itself.
    pub device_state: T,
    /// State of its transport.
    pub transport_state: MmioTransportState,
    /// Bus region and interrupt line of the device.
    pub device_info: MMIODeviceInfo,
}

/// A saved memory-mapped device as a mathematical value.
pub struct DeviceEntryView<V> {
    pub device_id: Seq<char>,
    pub device_state: V,
    pub transport_state: MmioTransportState,
    pub device_info: MMIODeviceInfo,
}

impl<T: DeepView> DeepView for VirtioDeviceState<T> {
    type V = DeviceEntryView<T::V>;

    open spec fn deep_view(&self) -> DeviceEntryView<T::V> {
        DeviceEntryView {
            device_id: self.device_id@,
            device_state: self.device_state.deep_view(),
            transport_state: self.transport_state,
            device_info: self.device_info,
        }
    }
}

/// What is saved of a device of the platform that sits on the bus of memory-mapped
/// registers: which device it is, and its resources.
#[derive(Clone, Copy, Debug, PartialEq, Eq, Structural)]
pub struct ConnectedLegacyState {
    /// Which device it is.
    pub type_: DeviceType,
    /// Bus region and interrupt line of the device.
    pub device_info: MMIODeviceInfo,
}

/// What is saved of the metadata service.
#[derive(Clone, Copy, Debug, PartialEq, Eq, Structural)]
pub struct MmdsState {
    /// Version of the protocol.
    pub version: MmdsVersion,
    /// Whether the service answers as the instance metadata service of a cloud does.
    pub imds_compat: bool,
}

/// What is saved of the memory-mapped devices of a machine.
#[derive(Debug)]
pub struct DeviceStates {
    /// The serial console and the real-time clock, as far as they are attached.
    pub legacy_devices: Vec<ConnectedLegacyState>,
    /// The block devices.
    pub block_devices: Vec<VirtioDeviceState<BlockState>>,
    /// The network devices.
    pub net_devices: Vec<VirtioDeviceState<NetState>>,
    /// The vsock device.
    pub vsock_device: Option<VirtioDeviceState<VsockState>>,
    /// The balloon device.
    pub balloon_device: Option<VirtioDeviceState<BalloonState>>,
    /// The metadata service, written once however many network devices expose it.
    pub mmds: Option<MmdsState>,
    /// The entropy device.
    pub entropy_device: Option<VirtioDeviceState<EntropyState>>,
}

/// The saved memory-mapped devices as a mathematical value.
pub struct DeviceStatesView {
    pub legacy_devices: Seq<ConnectedLegacyState>,
    pub block_devices: Seq<DeviceEntryView<BlockStateView>>,
    pub net_devices: Seq<DeviceEntryView<NetStateView>>,
    pub vsock_device: Option<DeviceEntryView<VsockStateView>>,
    pub balloon_device: Option<DeviceEntryView<BalloonStateView>>,
    pub mmds: Option<MmdsState>,
    pub entropy_device: Option<DeviceEntryView<EntropyStateView>>,
}

impl DeepView for DeviceStates {
    type V = DeviceStatesView;

    open spec fn deep_view(&self) -> DeviceStatesView {
        DeviceStatesView {
            legacy_devices: self.legacy_devices@,
            block_devices: self.block_devices.deep_view(),
            net_devices: self.net_devices.deep_view(),
            vsock_device: self.vsock_device.deep_view(),
            balloon_device: self.balloon_device.deep_view(),
            mmds: self.mmds,
            entropy_device: self.entropy_device.deep_view(),
        }
    }
}

impl DeviceStates {
    /// A snapshot of no devices.
    pub fn new() -> (s: Self)
        ensures
            s.legacy_devices@ == Seq::<ConnectedLegacyState>::empty(),
            s.block_devices@ == Seq::<VirtioDeviceState<BlockState>>::empty(),
            s.net_devices@ == Seq::<VirtioDeviceState<NetState>>::empty(),
            s.vsock_device is None,
            s.balloon_device is None,
            s.mmds is None,
            s.entropy_device is None,
    {
        DeviceStates {
            legacy_devices: Vec::new(),
            block_devices: Vec::new(),
            net_devices: Vec::new(),
            vsock_device: None,
            balloon_device: None,
            mmds: None,
            entropy_device: None,
        }
    }
}

/// A restored device as the table of resources gets to know it: by its kind and its
/// identifier, and for a balloon by the size it is meant to reach, in MiB.
#[derive(Debug)]
pub enum SharedDeviceType {
    VirtioBlock(String),
    Network(String),
    Balloon(String, u32),
    Vsock(String),
    Entropy(String),
}

/// What restoring the memory-mapped devices needs besides their saved state.
pub struct MMIODevManagerConstructorArgs<'a> {
    /// The machine to attach the devices to; guest memory is the one of this machine.
    pub vm: &'a mut Vm,
    /// Where the restored devices subscribe to events.
    pub event_manager: &'a mut EventManager,
    /// The table of resources, which gets to know every restored device.
    pub vm_resources: &'a mut VmResources,
    /// The instance identifier that the metadata service tells the guest.
    pub instance_id: &'a str,
    /// Whether the state was read from a file.
    pub restored_from_file: bool,
}

/// Whether `post` is the device `pre` brought to rest for a snapshot: a block device of
/// this process and a network device have nothing in flight, an activated vsock device has
/// told the guest that its connections are gone if it had a buffer to say so, and every
/// other device is as it was.
pub open spec fn quiesced(pre: VirtioDevice, post: VirtioDevice) -> bool {
    match pre {
        VirtioDevice::Block(dev) => post == (if dev.vhost_user {
            pre
        } else {
            VirtioDevice::Block(Block { pending_ops: 0, ..dev })
        }),
        VirtioDevice::Net(dev) => post == VirtioDevice::Net(
            Net { rx_deferred_frame: false, ..dev },
        ),
        VirtioDevice::Vsock(dev) => if dev.base.activated && dev.can_send_event() {
            post matches VirtioDevice::Vsock(sent) && reset_sent(dev, sent)
        } else {
            post == pre
        },
        _ => post == pre,
    }
}

/// Whether `post` holds the entries of `pre`, each with its device brought to rest.
pub open spec fn all_quiesced(pre: Seq<MmioEntry>, post: Seq<MmioEntry>) -> bool {
    &&& post.len() == pre.len()
    &&& forall|i: int|
        0 <= i < pre.len() ==> {
            &&& (#[trigger] post[i]).device_type == pre[i].device_type
            &&& post[i].device_id == pre[i].device_id
            &&& post[i].device.resources == pre[i].device.resources
            &&& post[i].device.inner.state == pre[i].device.inner.state
            &&& post[i].device.inner.is_vhost_user == pre[i].device.inner.is_vhost_user
            &&& quiesced(pre[i].device.inner.device, post[i].device.inner.device)
        }
}

/// The saved form of the entry `e` around the saved device state `device_state`.
pub open spec fn entry_view<V>(e: MmioEntry, device_state: V) -> DeviceEntryView<V> {
    DeviceEntryView {
        device_id: e.device_id@,
        device_state,
        transport_state: e.device.inner.state,
        device_info: e.device.resources,
    }
}

/// The block devices that a snapshot of `entries` holds: those that this process serves,
/// in the order of the registry.
pub open spec fn captured_blocks(entries: Seq<MmioEntry>) -> Seq<DeviceEntryView<BlockStateView>>
    decreases entries.len(),
{
    if entries.len() == 0 {
        Seq::empty()
    } else {
        let rest = captured_blocks(entries.drop_last());
        match entries.last().device.inner.device {
            VirtioDevice::Block(dev) => if dev.vhost_user {
                rest
            } else {
                rest.push(entry_view(entries.last(), dev.saved()))
            },
            _ => rest,
        }
    }
}

/// The network devices that a snapshot of `entries` holds, in the order of the registry.
pub open spec fn captured_nets(entries: Seq<MmioEntry>) -> Seq<DeviceEntryView<NetStateView>>
    decreases entries.len(),
{
    if entries.len() == 0 {
        Seq::empty()
    } else {
        let rest = captured_nets(entries.drop_last());
        match entries.last().device.inner.device {
            VirtioDevice::Net(dev) => rest.push(entry_view(entries.last(), dev.saved())),
            _ => rest,
        }
    }
}

/// The balloon device that a snapshot of `entries` holds: the last one of the registry.
pub open spec fn captured_balloon(entries: Seq<MmioEntry>) -> Option<
    DeviceEntryView<BalloonStateView>,
>
    decreases entries.len(),
{
    if entries.len() == 0 {
        None
    } else {
        match entries.last().device.inner.device {
            VirtioDevice::Balloon(dev) => Some(entry_view(entries.last(), dev.saved())),
            _ => captured_balloon(entries.drop_last()),
        }
    }
}

/// The vsock device that a snapshot of `entries` holds: the last one of the registry.
pub open spec fn captured_vsock(entries: Seq<MmioEntry>) -> Option<DeviceEntryView<VsockStateView>>
    decreases entries.len(),
{
    if entries.len() == 0 {
        None
    } else {
        match entries.last().device.inner.device {
            VirtioDevice::Vsock(dev) => Some(entry_view(entries.last(), dev.saved())),
            _ => captured_vsock(entries.drop_last()),
        }
    }
}

/// The entropy device that a snapshot of `entries` holds: the last one of the registry.
pub open spec fn captured_entropy(entries: Seq<MmioEntry>) -> Option<
    DeviceEntryView<EntropyStateView>,
>
    decreases entries.len(),
{
    if entries.len() == 0 {
        None
    } else {
        match entries.last().device.inner.device {
            VirtioDevice::Entropy(dev) => Some(entry_view(entries.last(), dev.saved())),
            _ => captured_entropy(entries.drop_last()),
        }
    }
}

/// The record of the metadata service that a snapshot of `entries` holds: that of the
/// first network device that exposes the service.
pub open spec fn captured_mmds(entries: Seq<MmioEntry>) -> Option<MmdsState>
    decreases entries.len(),
{
    if entries.len() == 0 {
        None
    } else {
        match captured_mmds(entries.drop_last()) {
            Some(record) => Some(record),
            None => match entries.last().device.inner.device {
                VirtioDevice::Net(dev) => match dev.mmds_ns {
                    Some(ns) => Some(
                        MmdsState { version: ns.mmds.version, imds_compat: ns.mmds.imds_compat },
                    ),
                    None => None,
                },
                _ => None,
            },
        }
    }
}

/// What a snapshot holds of the serial console with the resources `serial` and the
/// real-time clock with the resources `rtc`: the console first.
pub open spec fn captured_legacy(
    serial: Option<MMIODeviceInfo>,
    rtc: Option<MMIODeviceInfo>,
) -> Seq<ConnectedLegacyState> {
    (match serial {
        Some(info) => seq![ConnectedLegacyState { type_: DeviceType::Serial, device_info: info }],
        None => Seq::empty(),
    }) + (match rtc {
        Some(info) => seq![ConnectedLegacyState { type_: DeviceType::Rtc, device_info: info }],
        None => Seq::empty(),
    })
}

/// The snapshot of a registry with the devices `entries` and the devices `legacy` of the
/// platform.
pub open spec fn captured_with(
    entries: Seq<MmioEntry>,
    legacy: Seq<ConnectedLegacyState>,
) -> DeviceStatesView {
    DeviceStatesView { legacy_devices: legacy, ..captured(entries) }
}

/// The snapshot of the devices `entries`, without devices of the platform.
pub open spec fn captured(entries: Seq<MmioEntry>) -> DeviceStatesView {
    DeviceStatesView {
        legacy_devices: Seq::empty(),
        block_devices: captured_blocks(entries),
        net_devices: captured_nets(entries),
        vsock_device: captured_vsock(entries),
        balloon_device: captured_balloon(entries),
        mmds: captured_mmds(entries),
        entropy_device: captured_entropy(entries),
    }
}

impl MMIODeviceManager {
    /// Brings every device to rest and saves it.
    ///
    /// Block and network devices complete what is in flight. An activated vsock device
    /// tells the guest that its connections are gone; if it cannot, it is saved as it is.
    /// A block device that a process outside this one serves is left out of the snapshot.
    /// The snapshot is that of the devices as they are afterwards, with the resources of
    /// the serial console and of the real-time clock, as far as they are attached.
    pub fn save(&mut self) -> (states: DeviceStates)
        ensures
            all_quiesced(old(self).virtio_devices@, final(self).virtio_devices@),
            same_platform(*old(self), *final(self)),
            states.deep_view() == captured_with(
                final(self).virtio_devices@,
                captured_legacy(final(self).serial, final(self).rtc),
            ),
    {
        let mut states = DeviceStates::new();
        match self.serial {
            Some(info) => {
                states.legacy_devices.push(
                    ConnectedLegacyState { type_: DeviceType::Serial, device_info: info },
                );
            },
            None => {},
        }
        match self.rtc {
            Some(info) => {
                states.legacy_devices.push(
                    ConnectedLegacyState { type_: DeviceType::Rtc, device_info: info },
                );
            },
            None => {},
        }
        proof {
            assert(states.legacy_devices@ =~= captured_legacy(self.serial, self.rtc));
        }
        let mut i: usize = 0;
        while i < self.virtio_devices.len()
            invariant
                0 <= i <= self.virtio_devices.len(),
                self.virtio_devices.len() == old(self).virtio_devices.len(),
                same_platform(*old(self), *self),
                states.legacy_devices@ == captured_legacy(self.serial, self.rtc),
                all_quiesced(old(self).virtio_devices@.take(i as int), self.virtio_devices@.take(i as int)),
                forall|j: int|
                    i <= j < self.virtio_devices.len() ==> self.virtio_devices[j] == old(
                        self,
                    ).virtio_devices[j],
                states.block_devices.deep_view() =~= captured_blocks(
                    self.virtio_devices@.take(i as int),
                ),
                states.net_devices.deep_view() =~= captured_nets(
                    self.virtio_devices@.take(i as int),
                ),
                states.vsock_device.deep_view() == captured_vsock(
                    self.virtio_devices@.take(i as int),
                ),
                states.balloon_device.deep_view() == captured_balloon(
                    self.virtio_devices@.take(i as int),
                ),
                states.entropy_device.deep_view() == captured_entropy(
                    self.virtio_devices@.take(i as int),
                ),
                states.mmds == captured_mmds(self.virtio_devices@.take(i as int)),
            decreases self.virtio_devices.len() - i,
        {
            let ghost before = self.virtio_devices@;
            let ghost blocks_before = states.block_devices.deep_view();
            let ghost nets_before = states.net_devices.deep_view();
            let entry = &mut self.virtio_devices[i];
            let transport_state = entry.device.inner.save();
            let device_info = entry.device.resources;
            let device_id = entry.device_id.clone();
            match &mut entry.device.inner.device {
                VirtioDevice::Balloon(dev) => {
                    let device_state = dev.save();
                    states.balloon_device = Some(
                        VirtioDeviceState { device_id, device_state, transport_state, device_info },
                    );
                },
                VirtioDevice::Block(dev) => {
                    if !dev.is_vhost_user() {
                        dev.prepare_save();
                        let device_state = dev.save();
                        let saved = VirtioDeviceState {
                            device_id,
                            device_state,
                            transport_state,
                            device_info,
                        };
                        states.block_devices.push(saved);
                        proof {
                            assert(states.block_devices.deep_view() =~= blocks_before.push(
                                saved.deep_view(),
                            ));
                        }
                    }
                },
                VirtioDevice::Net(dev) => {
                    match dev.mmds_ns {
                        Some(ns) => {
                            if states.mmds.is_none() {
                                states.mmds = Some(
                                    MmdsState {
                                        version: ns.mmds.version(),
                                        imds_compat: ns.mmds.imds_compat(),
                                    },
                                );
                            }
                        },
                        None => {},
                    }
                    dev.prepare_save();
                    let device_state = dev.save();
                    let saved = VirtioDeviceState {
                        device_id,
                        device_state,
                        transport_state,
                        device_info,
                    };
                    states.net_devices.push(saved);
                    proof {
                        assert(states.net_devices.deep_view() =~= nets_before.push(
                            saved.deep_view(),
                        ));
                    }
                },
                VirtioDevice::Vsock(dev) => {
                    if dev.base.activated {
                        let _ = dev.send_transport_reset_event();
                    }
                    let device_state = VsockState {
                        backend: dev.backend().save(),
                        frontend: dev.save(),
                    };
                    states.vsock_device = Some(
                        VirtioDeviceState { device_id, device_state, transport_state, device_info },
                    );
                },
                VirtioDevice::Entropy(dev) => {
                    let device_state = dev.save();
                    states.entropy_device = Some(
                        VirtioDeviceState { device_id, device_state, transport_state, device_info },
                    );
                },
            }
            proof {
                let after = self.virtio_devices@;
                assert(after.take(i + 1).drop_last() =~= before.take(i as int));
                assert(after.take(i + 1).last() == after[i as int]);
                assert(after.take(i as int) =~= before.take(i as int));
            }
            i += 1;
        }
        proof {
            assert(self.virtio_devices@.take(i as int) == self.virtio_devices@);
            assert(old(self).virtio_devices@.take(i as int) == old(self).virtio_devices@);
        }
        states
    }
}

/// Why the devices of a snapshot could not be restored.
#[derive(Debug)]
pub enum DevicePersistError {
    /// The saved state of the balloon device was not accepted.
    Balloon(PersistError),
    /// The saved state of a block device was not accepted.
    Block(PersistError),
    /// The registry did not take a device.
    DeviceManager(MmioError),
    /// The saved state of a network device was not accepted.
    Net(NetPersistError),
    /// The saved state of the vsock device was not accepted.
    Vsock(VsockError),
    /// The host side of the vsock device could not be rebuilt.
    VsockUnixBackend(VsockUnixBackendError),
    /// The saved state of the entropy device was not accepted.
    Entropy(PersistError),
    /// A device does not fit the machine.
    ResourcesError(ResourcesError),
    /// A device that was activated when it was saved could not be activated again.
    DeviceActivation(ActivateError),
    /// The snapshot holds two devices of the same type and identifier.
    DuplicateDevice,
}

/// One saved device, of whatever kind.
pub enum SavedDevice {
    Balloon(DeviceEntryView<BalloonStateView>),
    Block(DeviceEntryView<BlockStateView>),
    Net(DeviceEntryView<NetStateView>),
    Vsock(DeviceEntryView<VsockStateView>),
    Entropy(DeviceEntryView<EntropyStateView>),
}

impl SavedDevice {
    /// Device type tag.
    pub open spec fn device_type(self) -> u32 {
        match self {
            SavedDevice::Balloon(_) => TYPE_BALLOON,
            SavedDevice::Block(_) => TYPE_BLOCK,
            SavedDevice::Net(_) => TYPE_NET,
            SavedDevice::Vsock(_) => TYPE_VSOCK,
            SavedDevice::Entropy(_) => TYPE_RNG,
        }
    }

    /// Identifier under which the device is registered.
    pub open spec fn device_id(self) -> Seq<char> {
        match self {
            SavedDevice::Balloon(e) => e.device_id,
            SavedDevice::Block(e) => e.device_id,
            SavedDevice::Net(e) => e.device_id,
            SavedDevice::Vsock(e) => e.device_id,
            SavedDevice::Entropy(e) => e.device_id,
        }
    }

    /// Features, queues and activation.
    pub open spec fn virtio_state(self) -> VirtioStateView {
        match self {
            SavedDevice::Balloon(e) => e.device_state.virtio_state,
            SavedDevice::Block(e) => e.device_state.virtio_state,
            SavedDevice::Net(e) => e.device_state.virtio_state,
            SavedDevice::Vsock(e) => e.device_state.virtio_state,
            SavedDevice::Entropy(e) => e.device_state.virtio_state,
        }
    }

    /// Bus region and interrupt line.
    pub open spec fn device_info(self) -> MMIODeviceInfo {
        match self {
            SavedDevice::Balloon(e) => e.device_info,
            SavedDevice::Block(e) => e.device_info,
            SavedDevice::Net(e) => e.device_info,
            SavedDevice::Vsock(e) => e.device_info,
            SavedDevice::Entropy(e) => e.device_info,
        }
    }

    /// Whether the device was activated when it was saved.
    pub open spec fn activated(self) -> bool {
        self.virtio_state().activated
    }

    /// The saved state of the device itself.
    pub open spec fn kind_state(self) -> KindState {
        match self {
            SavedDevice::Balloon(e) => KindState::Balloon(e.device_state),
            SavedDevice::Block(e) => KindState::Block(e.device_state),
            SavedDevice::Net(e) => KindState::Net(e.device_state),
            SavedDevice::Vsock(e) => KindState::Vsock(e.device_state),
            SavedDevice::Entropy(e) => KindState::Entropy(e.device_state),
        }
    }
}

/// The registry entry `e` in the form in which a snapshot would hold it.
pub open spec fn as_saved(e: MmioEntry) -> SavedDevice {
    match e.device.inner.device {
        VirtioDevice::Balloon(dev) => SavedDevice::Balloon(entry_view(e, dev.saved())),
        VirtioDevice::Block(dev) => SavedDevice::Block(entry_view(e, dev.saved())),
        VirtioDevice::Net(dev) => SavedDevice::Net(entry_view(e, dev.saved())),
        VirtioDevice::Vsock(dev) => SavedDevice::Vsock(entry_view(e, dev.saved())),
        VirtioDevice::Entropy(dev) => SavedDevice::Entropy(entry_view(e, dev.saved())),
    }
}

/// Whether the device of `e` is as a device is that was just restored: see
/// [`fresh_device`].
pub open spec fn fresh(e: MmioEntry, mmds: Option<Mmds>) -> bool {
    !e.device.inner.is_vhost_user && fresh_device(e.device.inner.device, mmds)
}

/// What restoring works on: the registry, as the saved forms of its entries, and what the
/// machine, the event manager and the table of resources hold.
pub struct RestoredWorld {
    pub serial: Option<MMIODeviceInfo>,
    pub rtc: Option<MMIODeviceInfo>,
    pub entries: Seq<SavedDevice>,
    pub bus: Map<u64, (u64, u64)>,
    pub actions: Seq<HostAction>,
    pub subscribers: Seq<(u32, Seq<char>)>,
    pub resources: VmResourcesView,
}

/// The world that `manager`, `vm`, `event_manager` and `vm_resources` make up.
pub open spec fn world_of(
    manager: MMIODeviceManager,
    vm: Vm,
    event_manager: EventManager,
    vm_resources: VmResources,
) -> RestoredWorld {
    RestoredWorld {
        serial: manager.serial,
        rtc: manager.rtc,
        entries: manager.virtio_devices@.map_values(|e: MmioEntry| as_saved(e)),
        bus: vm.mmio_bus.ranges(),
        actions: vm.actions@,
        subscribers: event_manager.deep_view(),
        resources: vm_resources.deep_view(),
    }
}

/// The saved state of one device, of whatever kind.
pub enum KindState {
    Balloon(BalloonStateView),
    Block(BlockStateView),
    Net(NetStateView),
    Vsock(VsockStateView),
    Entropy(EntropyStateView),
}

impl KindState {
    /// Features, queues and activation.
    pub open spec fn virtio_state(self) -> VirtioStateView {
        match self {
            KindState::Balloon(state) => state.virtio_state,
            KindState::Block(state) => state.virtio_state,
            KindState::Net(state) => state.virtio_state,
            KindState::Vsock(state) => state.virtio_state,
            KindState::Entropy(state) => state.virtio_state,
        }
    }

    /// Device type tag.
    pub open spec fn device_type(self) -> u32 {
        match self {
            KindState::Balloon(_) => TYPE_BALLOON,
            KindState::Block(_) => TYPE_BLOCK,
            KindState::Net(_) => TYPE_NET,
            KindState::Vsock(_) => TYPE_VSOCK,
            KindState::Entropy(_) => TYPE_RNG,
        }
    }
}

/// The state that saving `device` gives.
pub open spec fn kind_saved(device: VirtioDevice) -> KindState {
    match device {
        VirtioDevice::Balloon(dev) => KindState::Balloon(dev.saved()),
        VirtioDevice::Block(dev) => KindState::Block(dev.saved()),
        VirtioDevice::Net(dev) => KindState::Net(dev.saved()),
        VirtioDevice::Vsock(dev) => KindState::Vsock(dev.saved()),
        VirtioDevice::Entropy(dev) => KindState::Entropy(dev.saved()),
    }
}

/// The state `kind` of a device that is not activated, and otherwise as `kind` says.
pub open spec fn kind_inactive(kind: KindState) -> KindState {
    match kind {
        KindState::Balloon(state) => KindState::Balloon(
            BalloonStateView { virtio_state: inactive(state.virtio_state), ..state },
        ),
        KindState::Block(state) => KindState::Block(
            BlockStateView { virtio_state: inactive(state.virtio_state), ..state },
        ),
        KindState::Net(state) => KindState::Net(
            NetStateView { virtio_state: inactive(state.virtio_state), ..state },
        ),
        KindState::Vsock(state) => KindState::Vsock(
            VsockStateView { virtio_state: inactive(state.virtio_state), ..state },
        ),
        KindState::Entropy(state) => KindState::Entropy(
            EntropyStateView { virtio_state: inactive(state.virtio_state), ..state },
        ),
    }
}

/// Whether `device` is as a device is that was just restored: served by this process,
/// with nothing in flight, and exposing the metadata service `mmds` if it exposes one.
pub open spec fn fresh_device(device: VirtioDevice, mmds: Option<Mmds>) -> bool {
    match device {
        VirtioDevice::Block(dev) => !dev.vhost_user && dev.pending_ops == 0,
        VirtioDevice::Net(dev) => !dev.rx_deferred_frame && (dev.mmds_ns matches Some(ns)
            ==> Some(ns.mmds) == mmds),
        VirtioDevice::Vsock(dev) => dev.event_buffers == 0,
        _ => true,
    }
}

/// First part of restoring a device from the state `kind`: the state must be that of a
/// device of its kind, and the device must fit the machine. Gives the table of resources
/// that knows the device.
pub open spec fn kind_checked(kind: KindState, resources: VmResourcesView) -> Result<
    VmResourcesView,
    DevicePersistError,
> {
    match kind {
        KindState::Balloon(state) => if !state.virtio_state.fits(
            TYPE_BALLOON,
            BALLOON_NUM_QUEUES as nat,
            MAX_QUEUE_SIZE,
        ) {
            Err(DevicePersistError::Balloon(PersistError::InvalidInput))
        } else {
            match resources.updated(
                SharedDeviceView::Balloon(state.id, state.amount_mib),
            ) {
                Ok(after) => Ok(after),
                Err(err) => Err(DevicePersistError::ResourcesError(err)),
            }
        },
        KindState::Block(state) => if !state.virtio_state.fits(
            TYPE_BLOCK,
            BLOCK_NUM_QUEUES as nat,
            MAX_QUEUE_SIZE,
        ) {
            Err(DevicePersistError::Block(PersistError::InvalidInput))
        } else {
            match resources.updated(SharedDeviceView::VirtioBlock(state.id)) {
                Ok(after) => Ok(after),
                Err(err) => Err(DevicePersistError::ResourcesError(err)),
            }
        },
        KindState::Net(state) => if !state.virtio_state.fits(
            TYPE_NET,
            NET_NUM_QUEUES as nat,
            MAX_QUEUE_SIZE,
        ) {
            Err(
                DevicePersistError::Net(NetPersistError::VirtioState(PersistError::InvalidInput)),
            )
        } else if state.mmds_ns is Some && resources.mmds is None {
            Err(DevicePersistError::Net(NetPersistError::NoMmdsDataStore))
        } else {
            match resources.updated(SharedDeviceView::Network(state.id)) {
                Ok(after) => Ok(after),
                Err(err) => Err(DevicePersistError::ResourcesError(err)),
            }
        },
        KindState::Vsock(state) => if state.uds_path.len() == 0 {
            Err(DevicePersistError::VsockUnixBackend(VsockUnixBackendError::UnixBind))
        } else if !state.virtio_state.fits(
            TYPE_VSOCK,
            VSOCK_NUM_QUEUES as nat,
            MAX_QUEUE_SIZE,
        ) {
            Err(DevicePersistError::Vsock(VsockError::VirtioState(PersistError::InvalidInput)))
        } else {
            match resources.updated(SharedDeviceView::Vsock(state.id)) {
                Ok(after) => Ok(after),
                Err(err) => Err(DevicePersistError::ResourcesError(err)),
            }
        },
        KindState::Entropy(state) => if !state.virtio_state.fits(
            TYPE_RNG,
            RNG_NUM_QUEUES as nat,
            MAX_QUEUE_SIZE,
        ) {
            Err(DevicePersistError::Entropy(PersistError::InvalidInput))
        } else {
            match resources.updated(SharedDeviceView::Entropy(state.id)) {
                Ok(after) => Ok(after),
                Err(err) => Err(DevicePersistError::ResourcesError(err)),
            }
        },
    }
}

/// What rebuilding a device from the state `kind` does to the table of resources, and
/// what device it gives: what [`kind_checked`] says; on success a device that saves as
/// `kind` does but for not being activated, and that is fresh.
pub open spec fn rebuilt(
    pre: VmResources,
    post: VmResources,
    kind: KindState,
    r: Result<VirtioDevice, DevicePersistError>,
) -> bool {
    match kind_checked(kind, pre.deep_view()) {
        Ok(after) => {
            &&& r matches Ok(device)
            &&& post.deep_view() == after
            &&& kind_saved(device) == kind_inactive(kind)
            &&& fresh_device(device, post.mmds)
        },
        Err(err) => r matches Err(e) && e == err,
    }
}

/// Rebuilds a balloon device and makes it known to the table of resources.
pub fn rebuild_balloon(
    vm_resources: &mut VmResources,
    state: &BalloonState,
    restored_from_file: bool,
) -> (r: Result<VirtioDevice, DevicePersistError>)
    ensures
        rebuilt(*old(vm_resources), *final(vm_resources), KindState::Balloon(state.deep_view()), r),
{
    let device = match Balloon::restore(BalloonConstructorArgs { restored_from_file }, state) {
        Ok(device) => device,
        Err(err) => {
            return Err(DevicePersistError::Balloon(err));
        },
    };
    match vm_resources.update_from_restored_device(
        SharedDeviceType::Balloon(device.id.clone(), device.amount_mib),
    ) {
        Ok(()) => {},
        Err(err) => {
            return Err(DevicePersistError::ResourcesError(err));
        },
    }
    Ok(VirtioDevice::Balloon(device))
}

/// Rebuilds a block device and makes it known to the table of resources.
pub fn rebuild_block(vm_resources: &mut VmResources, state: &BlockState) -> (r: Result<
    VirtioDevice,
    DevicePersistError,
>)
    ensures
        rebuilt(*old(vm_resources), *final(vm_resources), KindState::Block(state.deep_view()), r),
{
    let device = match Block::restore(state) {
        Ok(device) => device,
        Err(err) => {
            return Err(DevicePersistError::Block(err));
        },
    };
    match vm_resources.update_from_restored_device(SharedDeviceType::VirtioBlock(device.id.clone())) {
        Ok(()) => {},
        Err(err) => {
            return Err(DevicePersistError::ResourcesError(err));
        },
    }
    Ok(VirtioDevice::Block(device))
}

/// Rebuilds a network device, bound to the metadata service of the table of resources if
/// it exposed one, and makes it known to the table.
pub fn rebuild_net(vm_resources: &mut VmResources, state: &NetState) -> (r: Result<
    VirtioDevice,
    DevicePersistError,
>)
    ensures
        rebuilt(*old(vm_resources), *final(vm_resources), KindState::Net(state.deep_view()), r),
{
    let device = match Net::restore(NetConstructorArgs { mmds: vm_resources.mmds }, state) {
        Ok(device) => device,
        Err(err) => {
            return Err(DevicePersistError::Net(err));
        },
    };
    match vm_resources.update_from_restored_device(SharedDeviceType::Network(device.id.clone())) {
        Ok(()) => {},
        Err(err) => {
            return Err(DevicePersistError::ResourcesError(err));
        },
    }
    Ok(VirtioDevice::Net(device))
}

/// Rebuilds a vsock device, host side first, and makes it known to the table of
/// resources.
pub fn rebuild_vsock(vm_resources: &mut VmResources, state: &VsockState) -> (r: Result<
    VirtioDevice,
    DevicePersistError,
>)
    ensures
        rebuilt(*old(vm_resources), *final(vm_resources), KindState::Vsock(state.deep_view()), r),
{
    let ctor_args = VsockUdsConstructorArgs { cid: state.frontend.cid };
    let backend = match VsockUnixBackend::restore(ctor_args, &state.backend) {
        Ok(backend) => backend,
        Err(err) => {
            return Err(DevicePersistError::VsockUnixBackend(err));
        },
    };
    let device = match Vsock::restore(VsockConstructorArgs { backend }, &state.frontend) {
        Ok(device) => device,
        Err(err) => {
            return Err(DevicePersistError::Vsock(err));
        },
    };
    match vm_resources.update_from_restored_device(SharedDeviceType::Vsock(device.id.clone())) {
        Ok(()) => {},
        Err(err) => {
            return Err(DevicePersistError::ResourcesError(err));
        },
    }
    Ok(VirtioDevice::Vsock(device))
}

/// Rebuilds an entropy device and makes it known to the table of resources.
pub fn rebuild_entropy(vm_resources: &mut VmResources, state: &EntropyState) -> (r: Result<
    VirtioDevice,
    DevicePersistError,
>)
    ensures
        rebuilt(*old(vm_resources), *final(vm_resources), KindState::Entropy(state.deep_view()), r),
{
    let device = match Entropy::restore(state) {
        Ok(device) => device,
        Err(err) => {
            return Err(DevicePersistError::Entropy(err));
        },
    };
    match vm_resources.update_from_restored_device(SharedDeviceType::Entropy(device.id.clone())) {
        Ok(()) => {},
        Err(err) => {
            return Err(DevicePersistError::ResourcesError(err));
        },
    }
    Ok(VirtioDevice::Entropy(device))
}

/// First part of restoring `item`: see [`kind_checked`].
pub open spec fn item_checked(item: SavedDevice, resources: VmResourcesView) -> Result<
    VmResourcesView,
    DevicePersistError,
> {
    kind_checked(item.kind_state(), resources)
}

/// Whether `entries` holds a device of the type and identifier of `item`.
pub open spec fn already_held(entries: Seq<SavedDevice>, item: SavedDevice) -> bool {
    exists|j: int|
        0 <= j < entries.len() && (#[trigger] entries[j]).device_type() == item.device_type()
            && entries[j].device_id() == item.device_id()
}

/// Second part of restoring `item`: it goes into the registry and on the bus with the
/// resources that it was saved with, the host is asked to connect its queues and its
/// interrupt line, its activation is replayed in `mem`, and it subscribes to events.
pub open spec fn item_registered(world: RestoredWorld, item: SavedDevice, mem: GuestMemory) -> Result<
    RestoredWorld,
    DevicePersistError,
> {
    let info = item.device_info();
    if already_held(world.entries, item) {
        Err(DevicePersistError::DuplicateDevice)
    } else if info.gsi is None {
        Err(DevicePersistError::DeviceManager(MmioError::InvalidIrqConfig))
    } else if !window_valid(info.addr, info.len) {
        Err(DevicePersistError::DeviceManager(MmioError::BusInsert(BusError::InvalidRange)))
    } else if overlaps_any(world.bus, info.addr, info.len) {
        Err(DevicePersistError::DeviceManager(MmioError::BusInsert(BusError::Overlap)))
    } else if item.activated() && !all_valid_in(item.virtio_state().queues, &mem) {
        Err(DevicePersistError::DeviceActivation(ActivateError::QueueMemoryError))
    } else {
        Ok(
            RestoredWorld {
                entries: world.entries.push(item),
                bus: world.bus.insert(info.addr, (info.len, world.entries.len() as u64)),
                actions: (world.actions + ioevent_actions(
                    (info.addr + NOTIFY_REG_OFFSET) as u64,
                    item.virtio_state().queues.len(),
                )).push(HostAction::RegisterIrq { gsi: info.gsi->0 }),
                subscribers: world.subscribers.push((item.device_type(), item.device_id())),
                ..world
            },
        )
    }
}

/// Restoring `item` in `world`: the world afterwards, or the reason why the device could
/// not be restored.
pub open spec fn item_applied(world: RestoredWorld, item: SavedDevice, mem: GuestMemory) -> Result<
    RestoredWorld,
    DevicePersistError,
> {
    match item_checked(item, world.resources) {
        Ok(resources) => item_registered(RestoredWorld { resources, ..world }, item, mem),
        Err(err) => Err(err),
    }
}

/// Restoring `items` one after the other, stopping at the first that fails.
pub open spec fn items_applied(world: RestoredWorld, items: Seq<SavedDevice>, mem: GuestMemory) -> Result<
    RestoredWorld,
    DevicePersistError,
>
    decreases items.len(),
{
    if items.len() == 0 {
        Ok(world)
    } else {
        match item_applied(world, items[0], mem) {
            Ok(next) => items_applied(next, items.drop_first(), mem),
            Err(err) => Err(err),
        }
    }
}

/// Restoring `item`, if there is one.
pub open spec fn option_applied(
    world: RestoredWorld,
    item: Option<SavedDevice>,
    mem: GuestMemory,
) -> Result<RestoredWorld, DevicePersistError> {
    match item {
        Some(item) => item_applied(world, item, mem),
        None => Ok(world),
    }
}

/// The saved balloon device as an item to restore.
pub open spec fn balloon_item(s: DeviceStatesView) -> Option<SavedDevice> {
    match s.balloon_device {
        Some(e) => Some(SavedDevice::Balloon(e)),
        None => None,
    }
}

/// The saved block devices as items to restore.
pub open spec fn block_items(s: DeviceStatesView) -> Seq<SavedDevice> {
    s.block_devices.map_values(|e: DeviceEntryView<BlockStateView>| SavedDevice::Block(e))
}

/// The saved network devices as items to restore.
pub open spec fn net_items(s: DeviceStatesView) -> Seq<SavedDevice> {
    s.net_devices.map_values(|e: DeviceEntryView<NetStateView>| SavedDevice::Net(e))
}

/// The saved vsock device as an item to restore.
pub open spec fn vsock_item(s: DeviceStatesView) -> Option<SavedDevice> {
    match s.vsock_device {
        Some(e) => Some(SavedDevice::Vsock(e)),
        None => None,
    }
}

/// The saved entropy device as an item to restore.
pub open spec fn entropy_item(s: DeviceStatesView) -> Option<SavedDevice> {
    match s.entropy_device {
        Some(e) => Some(SavedDevice::Entropy(e)),
        None => None,
    }
}

/// Whether a saved network device exposed the metadata service.
pub open spec fn some_net_exposes_mmds(s: DeviceStatesView) -> bool {
    exists|i: int| 0 <= i < s.net_devices.len() && (#[trigger] s.net_devices[i]).device_state.mmds_ns is Some
}

/// The table of resources with the metadata service as the snapshot `s` asks for it: as
/// its record says; if there is no record but a network device exposed the service, as it
/// is by default; otherwise untouched.
pub open spec fn mmds_configured(
    resources: VmResourcesView,
    s: DeviceStatesView,
    instance_id: Seq<char>,
) -> VmResourcesView {
    match s.mmds {
        Some(record) => resources.with_mmds_config(record.version, record.imds_compat, instance_id),
        None => if some_net_exposes_mmds(s) {
            resources.with_default_mmds()
        } else {
            resources
        },
    }
}

/// Putting the device `legacy` of the platform back where it was saved: the serial console
/// goes on the bus and has its interrupt line connected, the real-time clock goes on the
/// bus; what is saved of another kind of device is passed over.
pub open spec fn legacy_applied(world: RestoredWorld, legacy: ConnectedLegacyState) -> Result<
    RestoredWorld,
    DevicePersistError,
> {
    let info = legacy.device_info;
    if legacy.type_ != DeviceType::Serial && legacy.type_ != DeviceType::Rtc {
        Ok(world)
    } else if legacy.type_ == DeviceType::Serial && info.gsi is None {
        Err(DevicePersistError::DeviceManager(MmioError::InvalidIrqConfig))
    } else if !range_valid(info.addr, info.len) {
        Err(DevicePersistError::DeviceManager(MmioError::BusInsert(BusError::InvalidRange)))
    } else if overlaps_any(world.bus, info.addr, info.len) {
        Err(DevicePersistError::DeviceManager(MmioError::BusInsert(BusError::Overlap)))
    } else if legacy.type_ == DeviceType::Serial {
        Ok(
            RestoredWorld {
                serial: Some(info),
                bus: world.bus.insert(info.addr, (info.len, SERIAL_HANDLE)),
                actions: world.actions.push(HostAction::RegisterIrq { gsi: info.gsi->0 }),
                ..world
            },
        )
    } else {
        Ok(
            RestoredWorld {
                rtc: Some(info),
                bus: world.bus.insert(info.addr, (info.len, RTC_HANDLE)),
                ..world
            },
        )
    }
}

/// Putting the devices `legacy` of the platform back one after the other, stopping at the
/// first that fails.
pub open spec fn legacies_applied(world: RestoredWorld, legacy: Seq<ConnectedLegacyState>) -> Result<
    RestoredWorld,
    DevicePersistError,
>
    decreases legacy.len(),
{
    if legacy.len() == 0 {
        Ok(world)
    } else {
        match legacy_applied(world, legacy[0]) {
            Ok(next) => legacies_applied(next, legacy.drop_first()),
            Err(err) => Err(err),
        }
    }
}

/// Restoring the virtio devices of the snapshot `s` in `world`, in the fixed order: the
/// balloon device, the block devices, the metadata service, the network devices, the vsock
/// device, the entropy device. The first failure ends it.
pub open spec fn devices_outcome(
    world: RestoredWorld,
    s: DeviceStatesView,
    instance_id: Seq<char>,
    mem: GuestMemory,
) -> Result<RestoredWorld, DevicePersistError> {
    match option_applied(world, balloon_item(s), mem) {
        Err(err) => Err(err),
        Ok(w1) => match items_applied(w1, block_items(s), mem) {
            Err(err) => Err(err),
            Ok(w2) => match items_applied(
                RestoredWorld { resources: mmds_configured(w2.resources, s, instance_id), ..w2 },
                net_items(s),
                mem,
            ) {
                Err(err) => Err(err),
                Ok(w3) => match option_applied(w3, vsock_item(s), mem) {
                    Err(err) => Err(err),
                    Ok(w4) => option_applied(w4, entropy_item(s), mem),
                },
            },
        },
    }
}

/// Whether `post` holds the devices of `pre` and behind them one device of the type
/// `device_type`.
pub open spec fn extended(pre: MMIODeviceManager, post: MMIODeviceManager, device_type: u32) -> bool {
    &&& post.virtio_devices@.len() == pre.virtio_devices@.len() + 1
    &&& post.virtio_devices@.drop_last() == pre.virtio_devices@
    &&& post.virtio_devices@.last().device.inner.device.spec_device_type() == device_type
}

/// Restoring the snapshot `s` in `world`: first the devices of the platform are put back,
/// then the virtio devices are restored as [`devices_outcome`] says. The first failure ends
/// it.
pub open spec fn restore_outcome(
    world: RestoredWorld,
    s: DeviceStatesView,
    instance_id: Seq<char>,
    mem: GuestMemory,
) -> Result<RestoredWorld, DevicePersistError> {
    match legacies_applied(world, s.legacy_devices) {
        Ok(next) => devices_outcome(next, s, instance_id, mem),
        Err(err) => Err(err),
    }
}

/// What restoring one device does: what [`item_applied`] says of the world, and on
/// success a registry that is well formed, on the bus of the machine, fresh, and longer by
/// the device.
pub open spec fn applied(
    pre: (MMIODeviceManager, Vm, EventManager, VmResources),
    post: (MMIODeviceManager, Vm, EventManager, VmResources),
    item: SavedDevice,
    r: Result<(), DevicePersistError>,
) -> bool {
    &&& post.1.guest_memory == pre.1.guest_memory
    &&& post.1.resource_allocator == pre.1.resource_allocator
    &&& post.0.boot_timer == pre.0.boot_timer
    &&& match item_applied(world_of(pre.0, pre.1, pre.2, pre.3), item, pre.1.guest_memory) {
        Ok(after) => {
            &&& r is Ok
            &&& world_of(post.0, post.1, post.2, post.3) == after
            &&& post.0.wf()
            &&& post.0.on_bus(post.1.mmio_bus.ranges())
            &&& post.0.all_fresh(post.3.mmds)
            &&& extended(pre.0, post.0, item.device_type())
        },
        Err(err) => r matches Err(e) && e == err,
    }
}

/// What restoring the devices `items` does: what [`items_applied`] says of the world, and
/// on success a registry that is well formed, on the bus of the machine, and fresh.
pub open spec fn all_applied(
    pre: (MMIODeviceManager, Vm, EventManager, VmResources),
    post: (MMIODeviceManager, Vm, EventManager, VmResources),
    items: Seq<SavedDevice>,
    r: Result<(), DevicePersistError>,
) -> bool {
    &&& post.1.guest_memory == pre.1.guest_memory
    &&& post.1.resource_allocator == pre.1.resource_allocator
    &&& post.0.boot_timer == pre.0.boot_timer
    &&& match items_applied(world_of(pre.0, pre.1, pre.2, pre.3), items, pre.1.guest_memory) {
        Ok(after) => {
            &&& r is Ok
            &&& world_of(post.0, post.1, post.2, post.3) == after
            &&& post.0.wf()
            &&& post.0.on_bus(post.1.mmio_bus.ranges())
            &&& post.0.all_fresh(post.3.mmds)
        },
        Err(err) => r matches Err(e) && e == err,
    }
}

/// What restoring the snapshot `s` does to a machine, an event manager and a table of
/// resources: it never touches guest memory or the allocators; it succeeds exactly when
/// [`restore_outcome`] does, with the same error otherwise; and on success the registry
/// returned and what the three hold make up the world that [`restore_outcome`] gives, the
/// registry being well formed, on the bus of the machine, fresh, and without a boot timer.
pub open spec fn restored(
    pre: (Vm, EventManager, VmResources),
    post: (Vm, EventManager, VmResources),
    s: DeviceStatesView,
    instance_id: Seq<char>,
    r: Result<MMIODeviceManager, DevicePersistError>,
) -> bool {
    &&& post.0.guest_memory == pre.0.guest_memory
    &&& post.0.resource_allocator == pre.0.resource_allocator
    &&& match restore_outcome(
        RestoredWorld {
            serial: None,
            rtc: None,
            entries: Seq::empty(),
            bus: pre.0.mmio_bus.ranges(),
            actions: pre.0.actions@,
            subscribers: pre.1.deep_view(),
            resources: pre.2.deep_view(),
        },
        s,
        instance_id,
        pre.0.guest_memory,
    ) {
        Ok(after) => {
            &&& r matches Ok(manager)
            &&& world_of(manager, post.0, post.1, post.2) == after
            &&& manager.wf()
            &&& manager.on_bus(post.0.mmio_bus.ranges())
            &&& manager.all_fresh(post.2.mmds)
            &&& manager.boot_timer is None
        },
        Err(err) => r matches Err(e) && e == err,
    }
}

impl MMIODeviceManager {
    /// Whether every device is as a device is that was just restored.
    pub open spec fn all_fresh(&self, mmds: Option<Mmds>) -> bool {
        forall|i: int|
            0 <= i < self.virtio_devices.len() ==> fresh(#[trigger] self.virtio_devices[i], mmds)
    }

    /// Second part of restoring a device: see [`item_registered`].
    fn restore_helper(
        &mut self,
        vm: &mut Vm,
        event_manager: &mut EventManager,
        device: VirtioDevice,
        activated: bool,
        id: &String,
        state: &MmioTransportState,
        device_info: &MMIODeviceInfo,
        Ghost(item): Ghost<SavedDevice>,
        Ghost(vm_resources): Ghost<VmResources>,
    ) -> (r: Result<(), DevicePersistError>)
        requires
            old(self).wf(),
            old(self).on_bus(old(vm).mmio_bus.ranges()),
            !device.spec_is_activated(),
            item.activated() == activated,
            item == as_saved(
                MmioEntry {
                    device_type: device.spec_device_type(),
                    device_id: *id,
                    device: MMIODevice {
                        resources: *device_info,
                        inner: MmioTransport {
                            device: if activated {
                                device.activated_form()
                            } else {
                                device
                            },
                            is_vhost_user: false,
                            state: *state,
                        },
                    },
                },
            ),
            fresh(
                MmioEntry {
                    device_type: device.spec_device_type(),
                    device_id: *id,
                    device: MMIODevice {
                        resources: *device_info,
                        inner: MmioTransport { device, is_vhost_user: false, state: *state },
                    },
                },
                vm_resources.mmds,
            ),
            old(self).all_fresh(vm_resources.mmds),
        ensures
            final(vm).guest_memory == old(vm).guest_memory,
            final(vm).resource_allocator == old(vm).resource_allocator,
            same_platform(*old(self), *final(self)),
            match item_registered(
                world_of(*old(self), *old(vm), *old(event_manager), vm_resources),
                item,
                old(vm).guest_memory,
            ) {
                Ok(after) => {
                    &&& r is Ok
                    &&& world_of(*final(self), *final(vm), *final(event_manager), vm_resources)
                        == after
                    &&& final(self).wf()
                    &&& final(self).on_bus(final(vm).mmio_bus.ranges())
                    &&& final(self).all_fresh(vm_resources.mmds)
                    &&& extended(*old(self), *final(self), device.spec_device_type())
                },
                Err(err) => r matches Err(e) && e == err,
            },
    {
        let ghost world = world_of(*self, *vm, *event_manager, vm_resources);
        let ghost before = self.virtio_devices@;
        let device_type = device.device_type();
        let place = self.position(device_type, id);
        proof {
            // the registry holds a device of this type and identifier exactly when the
            // world does
            if already_held(world.entries, item) {
                let j = choose|j: int|
                    0 <= j < world.entries.len() && (#[trigger] world.entries[j]).device_type()
                        == item.device_type() && world.entries[j].device_id() == item.device_id();
                assert(as_saved(before[j]).device_id() == before[j].device_id@);
                assert(place is Some);
            }
            if place is Some {
                let j = place->0 as int;
                assert(world.entries[j] == as_saved(before[j]));
                assert(world.entries[j].device_type() == item.device_type());
            }
        }
        if place.is_some() {
            return Err(DevicePersistError::DuplicateDevice);
        }
        let mut device = device;
        let activation = if activated {
            device.activate(&vm.guest_memory)
        } else {
            Ok(())
        };
        let ghost entry = MmioEntry {
            device_type: device.spec_device_type(),
            device_id: *id,
            device: MMIODevice {
                resources: *device_info,
                inner: MmioTransport { device, is_vhost_user: false, state: *state },
            },
        };
        let transport = MmioTransport::restore(
            MmioTransportConstructorArgs { device, is_vhost_user: false },
            state,
        );
        match self.register_mmio_virtio(
            vm,
            id.clone(),
            MMIODevice { resources: *device_info, inner: transport },
        ) {
            Ok(()) => {},
            Err(err) => {
                return Err(DevicePersistError::DeviceManager(err));
            },
        }
        match activation {
            Ok(()) => {},
            Err(err) => {
                return Err(DevicePersistError::DeviceActivation(err));
            },
        }
        event_manager.add_subscriber(device_type, id.clone());
        proof {
            assert(position_of(before, device_type, id@) is None);
            assert(self.virtio_devices@ == before.push(entry));
            assert(as_saved(entry) == item);
            assert(self.virtio_devices@.map_values(|e: MmioEntry| as_saved(e)) =~= world.entries.push(
                item,
            ));
            assert(handle_of(before, device_type, id@) == world.entries.len() as u64);
            assert(self.virtio_devices@.drop_last() =~= before);
        }
        Ok(())
    }

    /// Restores the balloon device.
    fn restore_balloon(
        &mut self,
        vm: &mut Vm,
        event_manager: &mut EventManager,
        vm_resources: &mut VmResources,
        state: &VirtioDeviceState<BalloonState>,
        restored_from_file: bool,
    ) -> (r: Result<(), DevicePersistError>)
        requires
            old(self).wf(),
            old(self).on_bus(old(vm).mmio_bus.ranges()),
            old(self).all_fresh(old(vm_resources).mmds),
        ensures
            applied(
                (*old(self), *old(vm), *old(event_manager), *old(vm_resources)),
                (*final(self), *final(vm), *final(event_manager), *final(vm_resources)),
                SavedDevice::Balloon(state.deep_view()),
                r,
            ),
    {
        let device = rebuild_balloon(vm_resources, &state.device_state, restored_from_file)?;
        self.restore_helper(
            vm,
            event_manager,
            device,
            state.device_state.virtio_state.activated,
            &state.device_id,
            &state.transport_state,
            &state.device_info,
            Ghost(SavedDevice::Balloon(state.deep_view())),
            Ghost(*vm_resources),
        )
    }

    /// Restores one block device.
    fn restore_block(
        &mut self,
        vm: &mut Vm,
        event_manager: &mut EventManager,
        vm_resources: &mut VmResources,
        state: &VirtioDeviceState<BlockState>,
    ) -> (r: Result<(), DevicePersistError>)
        requires
            old(self).wf(),
            old(self).on_bus(old(vm).mmio_bus.ranges()),
            old(self).all_fresh(old(vm_resources).mmds),
        ensures
            applied(
                (*old(self), *old(vm), *old(event_manager), *old(vm_resources)),
                (*final(self), *final(vm), *final(event_manager), *final(vm_resources)),
                SavedDevice::Block(state.deep_view()),
                r,
            ),
    {
        let device = rebuild_block(vm_resources, &state.device_state)?;
        self.restore_helper(
            vm,
            event_manager,
            device,
            state.device_state.is_activated(),
            &state.device_id,
            &state.transport_state,
            &state.device_info,
            Ghost(SavedDevice::Block(state.deep_view())),
            Ghost(*vm_resources),
        )
    }

    /// Restores one network device.
    fn restore_net(
        &mut self,
        vm: &mut Vm,
        event_manager: &mut EventManager,
        vm_resources: &mut VmResources,
        state: &VirtioDeviceState<NetState>,
    ) -> (r: Result<(), DevicePersistError>)
        requires
            old(self).wf(),
            old(self).on_bus(old(vm).mmio_bus.ranges()),
            old(self).all_fresh(old(vm_resources).mmds),
        ensures
            applied(
                (*old(self), *old(vm), *old(event_manager), *old(vm_resources)),
                (*final(self), *final(vm), *final(event_manager), *final(vm_resources)),
                SavedDevice::Net(state.deep_view()),
                r,
            ),
    {
        let device = rebuild_net(vm_resources, &state.device_state)?;
        self.restore_helper(
            vm,
            event_manager,
            device,
            state.device_state.virtio_state.activated,
            &state.device_id,
            &state.transport_state,
            &state.device_info,
            Ghost(SavedDevice::Net(state.deep_view())),
            Ghost(*vm_resources),
        )
    }

    /// Restores the vsock device.
    fn restore_vsock(
        &mut self,
        vm: &mut Vm,
        event_manager: &mut EventManager,
        vm_resources: &mut VmResources,
        state: &VirtioDeviceState<VsockState>,
    ) -> (r: Result<(), DevicePersistError>)
        requires
            old(self).wf(),
            old(self).on_bus(old(vm).mmio_bus.ranges()),
            old(self).all_fresh(old(vm_resources).mmds),
        ensures
            applied(
                (*old(self), *old(vm), *old(event_manager), *old(vm_resources)),
                (*final(self), *final(vm), *final(event_manager), *final(vm_resources)),
                SavedDevice::Vsock(state.deep_view()),
                r,
            ),
    {
        let device = rebuild_vsock(vm_resources, &state.device_state)?;
        self.restore_helper(
            vm,
            event_manager,
            device,
            state.device_state.frontend.virtio_state.activated,
            &state.device_id,
            &state.transport_state,
            &state.device_info,
            Ghost(SavedDevice::Vsock(state.deep_view())),
            Ghost(*vm_resources),
        )
    }

    /// Restores the entropy device.
    fn restore_entropy(
        &mut self,
        vm: &mut Vm,
        event_manager: &mut EventManager,
        vm_resources: &mut VmResources,
        state: &VirtioDeviceState<EntropyState>,
    ) -> (r: Result<(), DevicePersistError>)
        requires
            old(self).wf(),
            old(self).on_bus(old(vm).mmio_bus.ranges()),
            old(self).all_fresh(old(vm_resources).mmds),
        ensures
            applied(
                (*old(self), *old(vm), *old(event_manager), *old(vm_resources)),
                (*final(self), *final(vm), *final(event_manager), *final(vm_resources)),
                SavedDevice::Entropy(state.deep_view()),
                r,
            ),
    {
        let device = rebuild_entropy(vm_resources, &state.device_state)?;
        self.restore_helper(
            vm,
            event_manager,
            device,
            state.device_state.virtio_state.activated,
            &state.device_id,
            &state.transport_state,
            &state.device_info,
            Ghost(SavedDevice::Entropy(state.deep_view())),
            Ghost(*vm_resources),
        )
    }

    /// Whether no device of the registry is a network device.
    pub open spec fn without_nets(&self) -> bool {
        forall|i: int|
            0 <= i < self.virtio_devices.len() ==> !((
            #[trigger] self.virtio_devices[i]).device.inner.device is Net)
    }

    /// Restores the block devices `blocks`, in their order.
    fn restore_blocks(
        &mut self,
        vm: &mut Vm,
        event_manager: &mut EventManager,
        vm_resources: &mut VmResources,
        blocks: &Vec<VirtioDeviceState<BlockState>>,
    ) -> (r: Result<(), DevicePersistError>)
        requires
            old(self).wf(),
            old(self).on_bus(old(vm).mmio_bus.ranges()),
            old(self).all_fresh(old(vm_resources).mmds),
            old(self).without_nets(),
        ensures
            all_applied(
                (*old(self), *old(vm), *old(event_manager), *old(vm_resources)),
                (*final(self), *final(vm), *final(event_manager), *final(vm_resources)),
                blocks.deep_view().map_values(
                    |e: DeviceEntryView<BlockStateView>| SavedDevice::Block(e),
                ),
                r,
            ),
            r is Ok ==> final(self).without_nets(),
    {
        let ghost items = blocks.deep_view().map_values(
            |e: DeviceEntryView<BlockStateView>| SavedDevice::Block(e),
        );
        let ghost mem = vm.guest_memory;
        let ghost start = world_of(*self, *vm, *event_manager, *vm_resources);
        proof {
            assert(items.skip(0) =~= items);
        }
        let mut i: usize = 0;
        while i < blocks.len()
            invariant
                0 <= i <= blocks.len(),
                items == blocks.deep_view().map_values(
                    |e: DeviceEntryView<BlockStateView>| SavedDevice::Block(e),
                ),
                mem == vm.guest_memory,
                mem == old(vm).guest_memory,
                start == world_of(*old(self), *old(vm), *old(event_manager), *old(vm_resources)),
                vm.resource_allocator == old(vm).resource_allocator,
                same_platform(*old(self), *self),
                self.wf(),
                self.on_bus(vm.mmio_bus.ranges()),
                self.all_fresh(vm_resources.mmds),
                self.without_nets(),
                items_applied(start, items, mem) == items_applied(
                    world_of(*self, *vm, *event_manager, *vm_resources),
                    items.skip(i as int),
                    mem,
                ),
            decreases blocks.len() - i,
        {
            let ghost before = *self;
            proof {
                let rest = items.skip(i as int);
                assert(rest[0] == SavedDevice::Block(blocks[i as int].deep_view()));
                assert(rest.drop_first() =~= items.skip(i + 1));
            }
            self.restore_block(vm, event_manager, vm_resources, &blocks[i])?;
            proof {
                assert forall|j: int| 0 <= j < self.virtio_devices.len() implies !((
                #[trigger] self.virtio_devices[j]).device.inner.device is Net) by {
                    if j < before.virtio_devices.len() {
                        assert(self.virtio_devices@.drop_last()[j] == before.virtio_devices[j]);
                    }
                }
            }
            i += 1;
        }
        Ok(())
    }

    /// Restores the network devices `nets`, in their order.
    fn restore_nets(
        &mut self,
        vm: &mut Vm,
        event_manager: &mut EventManager,
        vm_resources: &mut VmResources,
        nets: &Vec<VirtioDeviceState<NetState>>,
    ) -> (r: Result<(), DevicePersistError>)
        requires
            old(self).wf(),
            old(self).on_bus(old(vm).mmio_bus.ranges()),
            old(self).all_fresh(old(vm_resources).mmds),
        ensures
            all_applied(
                (*old(self), *old(vm), *old(event_manager), *old(vm_resources)),
                (*final(self), *final(vm), *final(event_manager), *final(vm_resources)),
                nets.deep_view().map_values(|e: DeviceEntryView<NetStateView>| SavedDevice::Net(e)),
                r,
            ),
    {
        let ghost items = nets.deep_view().map_values(
            |e: DeviceEntryView<NetStateView>| SavedDevice::Net(e),
        );
        let ghost mem = vm.guest_memory;
        let ghost start = world_of(*self, *vm, *event_manager, *vm_resources);
        proof {
            assert(items.skip(0) =~= items);
        }
        let mut i: usize = 0;
        while i < nets.len()
            invariant
                0 <= i <= nets.len(),
                items == nets.deep_view().map_values(
                    |e: DeviceEntryView<NetStateView>| SavedDevice::Net(e),
                ),
                mem == vm.guest_memory,
                mem == old(vm).guest_memory,
                start == world_of(*old(self), *old(vm), *old(event_manager), *old(vm_resources)),
                vm.resource_allocator == old(vm).resource_allocator,
                same_platform(*old(self), *self),
                self.wf(),
                self.on_bus(vm.mmio_bus.ranges()),
                self.all_fresh(vm_resources.mmds),
                items_applied(start, items, mem) == items_applied(
                    world_of(*self, *vm, *event_manager, *vm_resources),
                    items.skip(i as int),
                    mem,
                ),
            decreases nets.len() - i,
        {
            proof {
                let rest = items.skip(i as int);
                assert(rest[0] == SavedDevice::Net(nets[i as int].deep_view()));
                assert(rest.drop_first() =~= items.skip(i + 1));
            }
            self.restore_net(vm, event_manager, vm_resources, &nets[i])?;
            i += 1;
        }
        Ok(())
    }

    /// Puts the devices `legacy` of the platform back where they were saved, in their
    /// order: see [`legacies_applied`].
    fn restore_legacy(
        &mut self,
        vm: &mut Vm,
        legacy: &Vec<ConnectedLegacyState>,
        Ghost(event_manager): Ghost<EventManager>,
        Ghost(vm_resources): Ghost<VmResources>,
    ) -> (r: Result<(), DevicePersistError>)
        requires
            old(self).wf(),
            old(self).on_bus(old(vm).mmio_bus.ranges()),
        ensures
            final(vm).guest_memory == old(vm).guest_memory,
            final(vm).resource_allocator == old(vm).resource_allocator,
            final(self).boot_timer == old(self).boot_timer,
            final(self).virtio_devices == old(self).virtio_devices,
            match legacies_applied(
                world_of(*old(self), *old(vm), event_manager, vm_resources),
                legacy@,
            ) {
                Ok(after) => {
                    &&& r is Ok
                    &&& world_of(*final(self), *final(vm), event_manager, vm_resources) == after
                    &&& final(self).wf()
                    &&& final(self).on_bus(final(vm).mmio_bus.ranges())
                },
                Err(err) => r matches Err(e) && e == err,
            },
    {
        let ghost start = world_of(*self, *vm, event_manager, vm_resources);
        proof {
            assert(legacy@.skip(0) =~= legacy@);
        }
        let mut i: usize = 0;
        while i < legacy.len()
            invariant
                0 <= i <= legacy.len(),
                start == world_of(*old(self), *old(vm), event_manager, vm_resources),
                vm.guest_memory == old(vm).guest_memory,
                vm.resource_allocator == old(vm).resource_allocator,
                self.boot_timer == old(self).boot_timer,
                self.virtio_devices == old(self).virtio_devices,
                self.wf(),
                self.on_bus(vm.mmio_bus.ranges()),
                legacies_applied(start, legacy@) == legacies_applied(
                    world_of(*self, *vm, event_manager, vm_resources),
                    legacy@.skip(i as int),
                ),
            decreases legacy.len() - i,
        {
            proof {
                let rest = legacy@.skip(i as int);
                assert(rest[0] == legacy@[i as int]);
                assert(rest.drop_first() =~= legacy@.skip(i + 1));
            }
            let state = legacy[i];
            match state.type_ {
                DeviceType::Serial => {
                    match self.register_mmio_serial_at(vm, state.device_info) {
                        Ok(()) => {},
                        Err(err) => {
                            return Err(DevicePersistError::DeviceManager(err));
                        },
                    }
                },
                DeviceType::Rtc => {
                    match self.register_mmio_rtc_at(vm, state.device_info) {
                        Ok(()) => {},
                        Err(err) => {
                            return Err(DevicePersistError::DeviceManager(err));
                        },
                    }
                },
                _ => {},
            }
            i += 1;
        }
        Ok(())
    }

    /// Configures the metadata service as the snapshot asks for it: see
    /// [`mmds_configured`].
    fn restore_mmds(vm_resources: &mut VmResources, state: &DeviceStates, instance_id: &str)
        ensures
            final(vm_resources).deep_view() == mmds_configured(
                old(vm_resources).deep_view(),
                state.deep_view(),
                instance_id@,
            ),
    {
        match state.mmds {
            Some(mmds) => {
                vm_resources.set_mmds_basic_config(mmds.version, mmds.imds_compat, instance_id);
            },
            None => {
                if any_net_exposes_mmds(&state.net_devices) {
                    let _ = vm_resources.mmds_or_default();
                }
            },
        }
    }

    /// Rebuilds the registry from `state` on `vm`: see [`Self::restore`].
    fn restore_on(
        vm: &mut Vm,
        event_manager: &mut EventManager,
        vm_resources: &mut VmResources,
        instance_id: &str,
        restored_from_file: bool,
        state: &DeviceStates,
    ) -> (r: Result<MMIODeviceManager, DevicePersistError>)
        ensures
            restored(
                (*old(vm), *old(event_manager), *old(vm_resources)),
                (*final(vm), *final(event_manager), *final(vm_resources)),
                state.deep_view(),
                instance_id@,
                r,
            ),
    {
        let mut dev_manager = MMIODeviceManager::new();
        let ghost s = state.deep_view();
        let ghost w0 = world_of(dev_manager, *vm, *event_manager, *vm_resources);
        proof {
            assert(w0.entries =~= Seq::empty());
        }
        dev_manager.restore_legacy(vm, &state.legacy_devices, Ghost(*event_manager), Ghost(*vm_resources))?;
        if let Some(balloon_state) = &state.balloon_device {
            dev_manager.restore_balloon(
                vm,
                event_manager,
                vm_resources,
                balloon_state,
                restored_from_file,
            )?;
        }
        dev_manager.restore_blocks(vm, event_manager, vm_resources, &state.block_devices)?;
        // The metadata service has to be there before a network device refers to it.
        Self::restore_mmds(vm_resources, state, instance_id);
        dev_manager.restore_nets(vm, event_manager, vm_resources, &state.net_devices)?;
        if let Some(vsock_state) = &state.vsock_device {
            dev_manager.restore_vsock(vm, event_manager, vm_resources, vsock_state)?;
        }
        if let Some(entropy_state) = &state.entropy_device {
            dev_manager.restore_entropy(vm, event_manager, vm_resources, entropy_state)?;
        }
        Ok(dev_manager)
    }

    /// Rebuilds the registry from a snapshot, on the machine and with the event manager
    /// and table of resources of `args`.
    ///
    /// The devices are restored in a fixed order, as [`restore_outcome`] says: each with
    /// the bus region and interrupt line that it was saved with, none newly allocated. The
    /// first failure ends the restore, and no registry is returned.
    pub fn restore(args: MMIODevManagerConstructorArgs<'_>, state: &DeviceStates) -> (r: Result<
        MMIODeviceManager,
        DevicePersistError,
    >)
        ensures
            restored(
                (*old(args.vm), *old(args.event_manager), *old(args.vm_resources)),
                (*final(args.vm), *final(args.event_manager), *final(args.vm_resources)),
                state.deep_view(),
                args.instance_id@,
                r,
            ),
    {
        Self::restore_on(
            args.vm,
            args.event_manager,
            args.vm_resources,
            args.instance_id,
            args.restored_from_file,
            state,
        )
    }
}

/// Tells whether a saved network device exposed the metadata service.
fn any_net_exposes_mmds(net_devices: &Vec<VirtioDeviceState<NetState>>) -> (r: bool)
    ensures
        r == exists|i: int|
            0 <= i < net_devices.len() && (#[trigger] net_devices.deep_view()[i]).device_state.mmds_ns is Some,
{
    let mut i: usize = 0;
    while i < net_devices.len()
        invariant
            0 <= i <= net_devices.len(),
            forall|j: int|
                0 <= j < i ==> (#[trigger] net_devices.deep_view()[j]).device_state.mmds_ns is None,
        decreases net_devices.len() - i,
    {
        if net_devices[i].device_state.mmds_ns.is_some() {
            assert(net_devices.deep_view()[i as int].device_state.mmds_ns is Some);
            return true;
        }
        i += 1;
    }
    false
}

/// What is saved of the platform devices: the resources of the generation-ID device.
#[derive(Clone, Copy, Debug, PartialEq, Eq, Structural)]
pub struct ACPIDeviceManagerState {
    /// The generation-ID device, if it was attached.
    pub vmgenid: Option<VMGenIDState>,
}

/// What restoring the platform devices needs besides their saved state.
pub struct ACPIDeviceManagerConstructorArgs<'a> {
    /// The machine to attach the devices to.
    pub vm: &'a mut Vm,
}

/// Why the platform devices could not be restored.
#[derive(Debug)]
pub enum ACPIDeviceManagerRestoreError {
    /// The generation-ID device could not be rebuilt.
    VMGenID(VmGenIdError),
}

impl ACPIDeviceManager {
    /// Saves the resources of the generation-ID device, if it is attached.
    pub fn save(&self) -> (state: ACPIDeviceManagerState)
        ensures
            state.vmgenid == (match self.vmgenid {
                Some(device) => Some(VMGenIDState { gsi: device.gsi, addr: device.guest_address }),
                None => None,
            }),
    {
        ACPIDeviceManagerState {
            vmgenid: match &self.vmgenid {
                Some(device) => Some(device.save()),
                None => None,
            },
        }
    }

    /// Rebuilds the platform devices from `state`: the generation-ID device, if it was
    /// saved, with the interrupt line and address that it was saved with, none newly
    /// allocated. The host is asked to route the line into the guest; the guest sees
    /// nothing else of it.
    pub fn restore(args: ACPIDeviceManagerConstructorArgs<'_>, state: &ACPIDeviceManagerState) -> (r:
        Result<ACPIDeviceManager, ACPIDeviceManagerRestoreError>)
        ensures
            final(args.vm).guest_memory == old(args.vm).guest_memory,
            final(args.vm).resource_allocator == old(args.vm).resource_allocator,
            final(args.vm).mmio_bus == old(args.vm).mmio_bus,
            match r {
                Ok(manager) => {
                    &&& manager.vmclock is None
                    &&& match state.vmgenid {
                        Some(saved) => {
                            &&& manager.vmgenid matches Some(device)
                            &&& device.gsi == saved.gsi
                            &&& device.guest_address == saved.addr
                            &&& final(args.vm).actions@ == old(args.vm).actions@.push(
                                HostAction::RegisterIrq { gsi: saved.gsi },
                            )
                        },
                        None => manager.vmgenid is None && final(args.vm).actions@ == old(
                            args.vm,
                        ).actions@,
                    }
                },
                Err(_) => state.vmgenid is Some && final(args.vm).actions@ == old(args.vm).actions@,
            },
    {
        let mut dev_manager = ACPIDeviceManager::empty();
        if let Some(vmgenid_state) = &state.vmgenid {
            let vmgenid = match VmGenId::restore(vmgenid_state) {
                Ok(vmgenid) => vmgenid,
                Err(err) => {
                    return Err(ACPIDeviceManagerRestoreError::VMGenID(err));
                },
            };
            args.vm.register_irq(vmgenid.gsi);
            dev_manager.vmgenid = Some(vmgenid);
        }
        Ok(dev_manager)
    }
}

} // verus!
