use device_manager::device_manager::mmio::{MMIODeviceInfo, MMIODeviceManager, MmioError};
use device_manager::device_manager::pci_mngr::{
    PciDevices, PciDevicesConstructorArgs, PciManagerError,
};
use device_manager::device_manager::persist::{
    rebuild_net, DevicePersistError, MMIODevManagerConstructorArgs,
};
use device_manager::device_manager::{DeviceManager, DeviceRestoreArgs};
use device_manager::devices::legacy::i8042::EventCounter;
use device_manager::devices::pci::PciRootError;
use device_manager::devices::virtio::balloon::Balloon;
use device_manager::devices::virtio::block::Block;
use device_manager::devices::virtio::device::VirtioDevice;
use device_manager::devices::virtio::net::{Net, NetPersistError};
use device_manager::devices::virtio::persist::{PersistError, VirtioBase};
use device_manager::devices::virtio::queue::Queue;
use device_manager::devices::virtio::rng::Entropy;
use device_manager::devices::virtio::vsock::{
    Vsock, VsockError, VsockUnixBackend, VsockUnixBackendError,
};
use device_manager::devices::virtio::{
    ActivateError, TYPE_BALLOON, TYPE_BLOCK, TYPE_NET, TYPE_RNG, TYPE_VSOCK,
};
use device_manager::event_manager::EventManager;
use device_manager::mmds::{Mmds, MmdsVersion, DEFAULT_IPV4_ADDR};
use device_manager::resources::{ResourcesError, VmResources};
use device_manager::vstate::bus::BusError;
use device_manager::vstate::memory::{GuestMemory, MemoryRegion};
use device_manager::vstate::vm::{HostAction, Vm};
use linux_loader::cmdline::Cmdline;

fn memory() -> GuestMemory {
    GuestMemory::new(vec![MemoryRegion { start: 0, len: 128 << 20 }])
}

fn default_vm() -> Vm {
    Vm::new(memory()).unwrap()
}

fn queues(n: usize) -> Vec<Queue> {
    (0..n).map(|_| Queue::new(256)).collect()
}

fn ready_queues(n: usize) -> Vec<Queue> {
    (0..n)
        .map(|i| Queue {
            max_size: 256,
            size: 16,
            ready: true,
            desc_table: 0x10000 * (i as u64 + 1),
            avail_ring: 0x10000 * (i as u64 + 1) + 0x1000,
            used_ring: 0x10000 * (i as u64 + 1) + 0x2000,
            next_avail: 0,
            next_used: 0,
        })
        .collect()
}

fn base(n: usize) -> VirtioBase {
    VirtioBase { avail_features: 0b111, acked_features: 0b101, queues: queues(n), activated: false }
}

fn balloon(amount_mib: u32) -> VirtioDevice {
    VirtioDevice::Balloon(Balloon { id: "balloon".to_string(), base: base(3), amount_mib })
}

fn block(id: &str, vhost_user: bool) -> VirtioDevice {
    VirtioDevice::Block(Block { id: id.to_string(), base: base(1), vhost_user, pending_ops: 3 })
}

fn net(id: &str, mmds: Option<Mmds>) -> VirtioDevice {
    let mut net = Net::new(id.to_string(), None);
    if let Some(mmds) = mmds {
        net.configure_mmds_network_stack(DEFAULT_IPV4_ADDR, mmds);
    }
    net.rx_deferred_frame = true;
    VirtioDevice::Net(net)
}

fn vsock(uds_path: &str) -> VirtioDevice {
    VirtioDevice::Vsock(Vsock {
        id: "vsock".to_string(),
        base: base(3),
        cid: 3,
        backend: VsockUnixBackend { uds_path: uds_path.to_string() },
        event_buffers: 0,
    })
}

fn entropy() -> VirtioDevice {
    VirtioDevice::Entropy(Entropy { id: "rng".to_string(), base: base(1) })
}

fn attach(manager: &mut DeviceManager, vm: &mut Vm, cmdline: &mut Cmdline, device: VirtioDevice) {
    let id = device.id().clone();
    manager.attach_virtio_device(vm, id, device, cmdline, false).unwrap();
}

// A manager with one device of each kind; the network device exposes a metadata service
// of version 2.
fn one_of_each(manager: &mut DeviceManager, vm: &mut Vm) {
    let mut cmdline = Cmdline::new(4096).unwrap();
    let v2 = Mmds { version: MmdsVersion::V2, imds_compat: false };
    attach(manager, vm, &mut cmdline, balloon(123));
    attach(manager, vm, &mut cmdline, block("root", false));
    attach(manager, vm, &mut cmdline, net("netif", Some(v2)));
    attach(manager, vm, &mut cmdline, vsock("/tmp/vsock.sock"));
    attach(manager, vm, &mut cmdline, entropy());
}

fn check_restored_resources(vm_resources: &VmResources) {
    assert_eq!(vm_resources.balloon.as_deref(), Some("balloon"));
    assert_eq!(vm_resources.block, vec!["root".to_string()]);
    assert_eq!(vm_resources.net, vec!["netif".to_string()]);
    assert_eq!(vm_resources.vsock.as_deref(), Some("vsock"));
    assert_eq!(vm_resources.entropy.as_deref(), Some("rng"));
    assert_eq!(vm_resources.mem_size_mib, 128);
    assert_eq!(vm_resources.mmds_instance_id.as_deref(), Some("microvm-id"));
    assert_eq!(vm_resources.mmds, Some(Mmds { version: MmdsVersion::V2, imds_compat: false }));
}

#[test]
fn persist_test_device_manager_persistence() {
    // Set up a manager with one of each device, and get the saved states.
    let device_manager_state = {
        let mut vm = default_vm();
        let mut manager = DeviceManager::new(&mut vm, EventCounter::new());
        one_of_each(&mut manager, &mut vm);
        manager.save()
    };

    let mut event_manager = EventManager::new();
    // Restoring creates a new registry, on a new machine.
    let mut vm = default_vm();
    let mut vm_resources = VmResources::new();
    let restore_args = MMIODevManagerConstructorArgs {
        vm: &mut vm,
        event_manager: &mut event_manager,
        vm_resources: &mut vm_resources,
        instance_id: "microvm-id",
        restored_from_file: true,
    };
    let restored =
        MMIODeviceManager::restore(restore_args, &device_manager_state.mmio_state).unwrap();

    assert_eq!(vm_resources.mmds.unwrap().version(), MmdsVersion::V2);
    assert_eq!(device_manager_state.mmio_state.mmds.unwrap().version, MmdsVersion::V2);
    check_restored_resources(&vm_resources);

    // The devices are back under their types and identifiers, in the order of the restore,
    // with the resources that they were saved with.
    let keys: Vec<(u32, &str)> =
        restored.virtio_devices.iter().map(|e| (e.device_type, e.device_id.as_str())).collect();
    assert_eq!(
        keys,
        vec![
            (TYPE_BALLOON, "balloon"),
            (TYPE_BLOCK, "root"),
            (TYPE_NET, "netif"),
            (TYPE_VSOCK, "vsock"),
            (TYPE_RNG, "rng")
        ]
    );
    let infos: Vec<MMIODeviceInfo> =
        restored.virtio_devices.iter().map(|e| e.device.resources).collect();
    assert_eq!(
        infos,
        (0..5u32)
            .map(|i| MMIODeviceInfo {
                addr: 0xc000_1000 + 0x1000 * u64::from(i),
                len: 0x1000,
                gsi: Some(5 + i)
            })
            .collect::<Vec<_>>()
    );
    assert_eq!(event_manager.subscribers.len(), 5);
    assert!(!device_manager_state.pci_state.pci_enabled);
}

#[test]
fn pci_mngr_test_device_manager_persistence() {
    // Set up a manager with one of each device on the PCI bus, and get the saved states.
    let device_manager_state = {
        let mut vm = default_vm();
        let mut manager = DeviceManager::new(&mut vm, EventCounter::new());
        manager.enable_pci(&mut vm).unwrap();
        one_of_each(&mut manager, &mut vm);
        manager.save()
    };

    let mut event_manager = EventManager::new();
    let mut vm = default_vm();
    let mut vm_resources = VmResources::new();
    let restore_args = PciDevicesConstructorArgs {
        vm: &mut vm,
        vm_resources: &mut vm_resources,
        instance_id: "microvm-id",
        restored_from_file: true,
        event_manager: &mut event_manager,
    };
    let restored = PciDevices::restore(restore_args, &device_manager_state.pci_state).unwrap();

    assert_eq!(vm_resources.mmds.unwrap().version(), MmdsVersion::V2);
    assert_eq!(device_manager_state.pci_state.mmds.unwrap().version, MmdsVersion::V2);
    check_restored_resources(&vm_resources);

    assert!(restored.pci_segment.is_some());
    let found: Vec<(u32, &str, u32, u64, Vec<u32>)> = restored
        .virtio_devices
        .iter()
        .map(|e| {
            (
                e.device_type,
                e.device_id.as_str(),
                e.device.pci_device_bdf,
                e.device.bar_address,
                e.device.msix_vectors.vectors.clone(),
            )
        })
        .collect();
    // Slots 1 to 5, BARs of 512 KiB from the start of the 64-bit window, and one interrupt
    // line per queue and one more, from line 24 on.
    assert_eq!(
        found,
        vec![
            (TYPE_BALLOON, "balloon", 8, 0x40_0000_0000, vec![24, 25, 26, 27]),
            (TYPE_BLOCK, "root", 16, 0x40_0008_0000, vec![28, 29]),
            (TYPE_NET, "netif", 24, 0x40_0010_0000, vec![30, 31, 32]),
            (TYPE_VSOCK, "vsock", 32, 0x40_0018_0000, vec![33, 34, 35, 36]),
            (TYPE_RNG, "rng", 40, 0x40_0020_0000, vec![37, 38]),
        ]
    );
    assert!(device_manager_state.mmio_state.block_devices.is_empty());
}

#[test]
fn round_trip_keeps_identities_and_activation() {
    let mut vm = default_vm();
    let mut manager = DeviceManager::new(&mut vm, EventCounter::new());
    let mut cmdline = Cmdline::new(4096).unwrap();
    let mut active = Block {
        id: "data".to_string(),
        base: VirtioBase {
            avail_features: 1,
            acked_features: 1,
            queues: ready_queues(1),
            activated: false,
        },
        vhost_user: false,
        pending_ops: 0,
    };
    active.base.activate(&vm.guest_memory).unwrap();
    attach(&mut manager, &mut vm, &mut cmdline, block("root", false));
    attach(&mut manager, &mut vm, &mut cmdline, VirtioDevice::Block(active));
    attach(&mut manager, &mut vm, &mut cmdline, net("eth0", None));
    let state = manager.save();

    let mut vm2 = default_vm();
    let mut event_manager = EventManager::new();
    let mut vm_resources = VmResources::new();
    let restored = DeviceManager::restore(
        DeviceRestoreArgs {
            vm: &mut vm2,
            event_manager: &mut event_manager,
            vcpus_exit_evt: EventCounter::new(),
            vm_resources: &mut vm_resources,
            instance_id: "i-1",
            restored_from_file: false,
        },
        &state,
    )
    .unwrap();
    let before: Vec<(u32, String, bool)> = manager
        .mmio_devices
        .virtio_devices
        .iter()
        .map(|e| (e.device_type, e.device_id.clone(), e.device.inner.device.is_activated()))
        .collect();
    let after: Vec<(u32, String, bool)> = restored
        .mmio_devices
        .virtio_devices
        .iter()
        .map(|e| (e.device_type, e.device_id.clone(), e.device.inner.device.is_activated()))
        .collect();
    assert_eq!(before, after);
    assert_eq!(after[1], (TYPE_BLOCK, "data".to_string(), true));
    // no metadata service was exposed, so none is configured
    assert!(vm_resources.mmds.is_none());
    // the restore ends with the interrupt of the serial console
    assert_eq!(vm2.actions.last(), Some(&HostAction::SerialWrite { offset: 1, value: 1 }));
}

#[test]
fn restoring_twice_gives_the_same_resources() {
    let state = {
        let mut vm = default_vm();
        let mut manager = DeviceManager::new(&mut vm, EventCounter::new());
        manager.enable_pci(&mut vm).unwrap();
        one_of_each(&mut manager, &mut vm);
        manager.save()
    };
    let restore = || {
        let mut vm = default_vm();
        let mut event_manager = EventManager::new();
        let mut vm_resources = VmResources::new();
        let restored = PciDevices::restore(
            PciDevicesConstructorArgs {
                vm: &mut vm,
                vm_resources: &mut vm_resources,
                instance_id: "microvm-id",
                restored_from_file: true,
                event_manager: &mut event_manager,
            },
            &state.pci_state,
        )
        .unwrap();
        let resources: Vec<(u32, u64, Vec<u32>)> = restored
            .virtio_devices
            .iter()
            .map(|e| {
                (e.device.pci_device_bdf, e.device.bar_address, e.device.msix_vectors.vectors.clone())
            })
            .collect();
        // nothing was allocated anew
        assert_eq!(vm.resource_allocator.allocate_gsi_msi(1).unwrap(), vec![24]);
        resources
    };
    assert_eq!(restore(), restore());
}

#[test]
fn two_net_devices_give_one_mmds_record() {
    let mut vm = default_vm();
    let mut manager = DeviceManager::new(&mut vm, EventCounter::new());
    let mut cmdline = Cmdline::new(4096).unwrap();
    let shared = Mmds { version: MmdsVersion::V2, imds_compat: true };
    attach(&mut manager, &mut vm, &mut cmdline, net("eth0", None));
    attach(&mut manager, &mut vm, &mut cmdline, net("eth1", Some(shared)));
    attach(
        &mut manager,
        &mut vm,
        &mut cmdline,
        net("eth2", Some(Mmds { version: MmdsVersion::V1, imds_compat: false })),
    );
    let state = manager.save();
    assert_eq!(state.mmio_state.net_devices.len(), 3);
    let record = state.mmio_state.mmds.unwrap();
    assert_eq!(record.version, MmdsVersion::V2);
    assert!(record.imds_compat);
    // saving has brought the devices to rest
    for entry in &manager.mmio_devices.virtio_devices {
        match &entry.device.inner.device {
            VirtioDevice::Net(net) => assert!(!net.rx_deferred_frame),
            _ => unreachable!(),
        }
    }
}

#[test]
fn vhost_user_block_is_left_out_of_the_snapshot() {
    let mut vm = default_vm();
    let mut manager = DeviceManager::new(&mut vm, EventCounter::new());
    let mut cmdline = Cmdline::new(4096).unwrap();
    attach(&mut manager, &mut vm, &mut cmdline, block("root", false));
    manager
        .attach_virtio_device(&mut vm, "scratch".to_string(), block("scratch", true), &mut cmdline, true)
        .unwrap();
    let state = manager.save();
    let ids: Vec<&str> =
        state.mmio_state.block_devices.iter().map(|s| s.device_id.as_str()).collect();
    assert_eq!(ids, vec!["root"]);
    // the device that is left out is also left alone
    match &manager.mmio_devices.virtio_devices[1].device.inner.device {
        VirtioDevice::Block(dev) => assert_eq!(dev.pending_ops, 3),
        _ => unreachable!(),
    }
    match &manager.mmio_devices.virtio_devices[0].device.inner.device {
        VirtioDevice::Block(dev) => assert_eq!(dev.pending_ops, 0),
        _ => unreachable!(),
    }
}

#[test]
fn activated_vsock_tells_the_guest_before_it_is_saved() {
    let mut vm = default_vm();
    let mut manager = DeviceManager::new(&mut vm, EventCounter::new());
    let mut cmdline = Cmdline::new(4096).unwrap();
    let mut dev = Vsock {
        id: "vsock".to_string(),
        base: VirtioBase {
            avail_features: 0,
            acked_features: 0,
            queues: ready_queues(3),
            activated: false,
        },
        cid: 3,
        backend: VsockUnixBackend { uds_path: "/tmp/v.sock".to_string() },
        event_buffers: 1,
    };
    dev.base.activate(&vm.guest_memory).unwrap();
    attach(&mut manager, &mut vm, &mut cmdline, VirtioDevice::Vsock(dev));
    let state = manager.save();
    let saved = state.mmio_state.vsock_device.unwrap();
    assert_eq!(saved.device_state.frontend.virtio_state.queues[2].next_used, 1);
    assert_eq!(saved.device_state.frontend.virtio_state.queues[2].next_avail, 1);
    assert_eq!(saved.device_state.frontend.virtio_state.queues[0].next_used, 0);
    // without a buffer the guest cannot be told, and the snapshot is taken all the same
    let state = manager.save();
    let saved = state.mmio_state.vsock_device.unwrap();
    assert_eq!(saved.device_state.frontend.virtio_state.queues[2].next_used, 1);
    match &mut manager.mmio_devices.virtio_devices[0].device.inner.device {
        VirtioDevice::Vsock(dev) => {
            assert_eq!(dev.send_transport_reset_event(), Err(VsockError::EmptyQueue))
        }
        _ => unreachable!(),
    }
}

fn restore_mmio(
    state: &device_manager::device_manager::persist::DeviceStates,
    vm: &mut Vm,
) -> Result<MMIODeviceManager, DevicePersistError> {
    let mut event_manager = EventManager::new();
    let mut vm_resources = VmResources::new();
    MMIODeviceManager::restore(
        MMIODevManagerConstructorArgs {
            vm,
            event_manager: &mut event_manager,
            vm_resources: &mut vm_resources,
            instance_id: "id",
            restored_from_file: false,
        },
        state,
    )
}

fn saved_one_of_each() -> device_manager::device_manager::persist::DeviceStates {
    let mut vm = default_vm();
    let mut manager = DeviceManager::new(&mut vm, EventCounter::new());
    one_of_each(&mut manager, &mut vm);
    manager.save().mmio_state
}

#[test]
fn restore_fails_fast_on_each_kind_of_error() {
    let mut state = saved_one_of_each();
    state.balloon_device.as_mut().unwrap().device_state.virtio_state.device_type = TYPE_BLOCK;
    assert!(matches!(
        restore_mmio(&state, &mut default_vm()),
        Err(DevicePersistError::Balloon(PersistError::InvalidInput))
    ));

    let mut state = saved_one_of_each();
    state.balloon_device.as_mut().unwrap().device_state.amount_mib = 129;
    assert!(matches!(
        restore_mmio(&state, &mut default_vm()),
        Err(DevicePersistError::ResourcesError(ResourcesError::BalloonDevice))
    ));

    let mut state = saved_one_of_each();
    state.block_devices[0].device_state.virtio_state.queues.push(Queue::new(256));
    assert!(matches!(
        restore_mmio(&state, &mut default_vm()),
        Err(DevicePersistError::Block(PersistError::InvalidInput))
    ));

    let mut state = saved_one_of_each();
    state.net_devices[0].device_state.virtio_state.acked_features = 0b1000;
    assert!(matches!(
        restore_mmio(&state, &mut default_vm()),
        Err(DevicePersistError::Net(NetPersistError::VirtioState(PersistError::InvalidInput)))
    ));

    let mut state = saved_one_of_each();
    state.vsock_device.as_mut().unwrap().device_state.backend.uds_path = String::new();
    assert!(matches!(
        restore_mmio(&state, &mut default_vm()),
        Err(DevicePersistError::VsockUnixBackend(VsockUnixBackendError::UnixBind))
    ));

    let mut state = saved_one_of_each();
    state.vsock_device.as_mut().unwrap().device_state.frontend.virtio_state.queues[1].size = 512;
    assert!(matches!(
        restore_mmio(&state, &mut default_vm()),
        Err(DevicePersistError::Vsock(VsockError::VirtioState(PersistError::InvalidInput)))
    ));

    let mut state = saved_one_of_each();
    state.entropy_device.as_mut().unwrap().device_state.virtio_state.queues[0].max_size = 128;
    assert!(matches!(
        restore_mmio(&state, &mut default_vm()),
        Err(DevicePersistError::Entropy(PersistError::InvalidInput))
    ));

    let mut state = saved_one_of_each();
    state.block_devices[0].device_info.gsi = None;
    assert!(matches!(
        restore_mmio(&state, &mut default_vm()),
        Err(DevicePersistError::DeviceManager(MmioError::InvalidIrqConfig))
    ));

    let mut state = saved_one_of_each();
    state.block_devices[0].device_info.len = 0x50;
    assert!(matches!(
        restore_mmio(&state, &mut default_vm()),
        Err(DevicePersistError::DeviceManager(MmioError::BusInsert(BusError::InvalidRange)))
    ));

    // the block device would lie where the balloon device lies
    let mut state = saved_one_of_each();
    state.block_devices[0].device_info.addr = 0xc000_1800;
    assert!(matches!(
        restore_mmio(&state, &mut default_vm()),
        Err(DevicePersistError::DeviceManager(MmioError::BusInsert(BusError::Overlap)))
    ));

    // an activated device whose queues are not set up cannot be activated again
    let mut state = saved_one_of_each();
    state.net_devices[0].device_state.virtio_state.activated = true;
    assert!(matches!(
        restore_mmio(&state, &mut default_vm()),
        Err(DevicePersistError::DeviceActivation(ActivateError::QueueMemoryError))
    ));

    // two block devices of one identifier
    let mut state = saved_one_of_each();
    let mut vm = default_vm();
    let mut manager = DeviceManager::new(&mut vm, EventCounter::new());
    let mut cmdline = Cmdline::new(4096).unwrap();
    attach(&mut manager, &mut vm, &mut cmdline, entropy());
    attach(&mut manager, &mut vm, &mut cmdline, entropy());
    attach(&mut manager, &mut vm, &mut cmdline, entropy());
    attach(&mut manager, &mut vm, &mut cmdline, entropy());
    attach(&mut manager, &mut vm, &mut cmdline, entropy());
    attach(&mut manager, &mut vm, &mut cmdline, block("root", false));
    state.block_devices.push(manager.save().mmio_state.block_devices.pop().unwrap());
    assert!(matches!(
        restore_mmio(&state, &mut default_vm()),
        Err(DevicePersistError::DuplicateDevice)
    ));

    // and the untouched snapshot is restored
    assert!(restore_mmio(&saved_one_of_each(), &mut default_vm()).is_ok());
}

#[test]
fn net_device_needs_the_metadata_service_it_exposed() {
    let mut vm = default_vm();
    let mut manager = DeviceManager::new(&mut vm, EventCounter::new());
    let mut cmdline = Cmdline::new(4096).unwrap();
    let v1 = Mmds { version: MmdsVersion::V1, imds_compat: false };
    attach(&mut manager, &mut vm, &mut cmdline, net("eth0", Some(v1)));
    let mut state = manager.save().mmio_state;
    let saved = state.net_devices.pop().unwrap();

    let mut without = VmResources::new();
    assert!(matches!(
        rebuild_net(&mut without, &saved.device_state),
        Err(DevicePersistError::Net(NetPersistError::NoMmdsDataStore))
    ));
    assert!(without.net.is_empty());

    // a snapshot that has no record of the service but a device that exposed it: the
    // service is configured as it is by default
    state.net_devices.push(saved);
    state.mmds = None;
    let mut vm2 = default_vm();
    let mut event_manager = EventManager::new();
    let mut vm_resources = VmResources::new();
    let restored = MMIODeviceManager::restore(
        MMIODevManagerConstructorArgs {
            vm: &mut vm2,
            event_manager: &mut event_manager,
            vm_resources: &mut vm_resources,
            instance_id: "id",
            restored_from_file: false,
        },
        &state,
    )
    .unwrap();
    assert_eq!(vm_resources.mmds, Some(Mmds { version: MmdsVersion::V1, imds_compat: false }));
    assert!(vm_resources.mmds_instance_id.is_none());
    match &restored.virtio_devices[0].device.inner.device {
        VirtioDevice::Net(net) => assert_eq!(net.mmds_ns.unwrap().mmds, vm_resources.mmds.unwrap()),
        _ => unreachable!(),
    }
}

#[test]
fn pci_restore_fails_on_a_slot_taken_twice() {
    let mut state = {
        let mut vm = default_vm();
        let mut manager = DeviceManager::new(&mut vm, EventCounter::new());
        manager.enable_pci(&mut vm).unwrap();
        one_of_each(&mut manager, &mut vm);
        manager.save().pci_state
    };
    // the block device claims the slot of the balloon device
    state.block_devices[0].transport_state.pci_device_bdf = 8;
    let mut vm = default_vm();
    let mut event_manager = EventManager::new();
    let mut vm_resources = VmResources::new();
    let restored = PciDevices::restore(
        PciDevicesConstructorArgs {
            vm: &mut vm,
            vm_resources: &mut vm_resources,
            instance_id: "id",
            restored_from_file: false,
            event_manager: &mut event_manager,
        },
        &state,
    );
    assert!(matches!(
        restored,
        Err(PciManagerError::PciRoot(PciRootError::AlreadyInUsePciDeviceSlot(1)))
    ));

    // a device state of the wrong kind
    state.block_devices[0].transport_state.pci_device_bdf = 16;
    state.entropy_device.as_mut().unwrap().device_state.virtio_state.device_type = TYPE_NET;
    let mut vm = default_vm();
    let restored = PciDevices::restore(
        PciDevicesConstructorArgs {
            vm: &mut vm,
            vm_resources: &mut VmResources::new(),
            instance_id: "id",
            restored_from_file: false,
            event_manager: &mut EventManager::new(),
        },
        &state,
    );
    assert!(matches!(
        restored,
        Err(PciManagerError::DeviceRestore(DevicePersistError::Entropy(PersistError::InvalidInput)))
    ));

    // a BAR that lies where another BAR lies
    state.entropy_device.as_mut().unwrap().device_state.virtio_state.device_type = TYPE_RNG;
    state.net_devices[0].transport_state.bar_address = 0x40_0000_1000;
    let mut vm = default_vm();
    let restored = PciDevices::restore(
        PciDevicesConstructorArgs {
            vm: &mut vm,
            vm_resources: &mut VmResources::new(),
            instance_id: "id",
            restored_from_file: false,
            event_manager: &mut EventManager::new(),
        },
        &state,
    );
    assert!(matches!(restored, Err(PciManagerError::Bus(BusError::Overlap))));
}

#[test]
fn snapshot_without_pci_restores_an_empty_pci_registry() {
    let state = saved_one_of_each();
    let _ = state;
    let mut vm = default_vm();
    let mut manager = DeviceManager::new(&mut vm, EventCounter::new());
    let saved = manager.save();
    assert!(!saved.pci_state.pci_enabled);
    let mut vm2 = default_vm();
    let restored = PciDevices::restore(
        PciDevicesConstructorArgs {
            vm: &mut vm2,
            vm_resources: &mut VmResources::new(),
            instance_id: "id",
            restored_from_file: false,
            event_manager: &mut EventManager::new(),
        },
        &saved.pci_state,
    )
    .unwrap();
    assert!(restored.pci_segment.is_none());
    assert!(restored.virtio_devices.is_empty());
    assert!(vm2.actions.is_empty());
}
