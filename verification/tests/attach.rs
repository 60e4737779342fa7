use device_manager::arch::{MMIO32_MEM_START, MMIO_LEN};
use device_manager::device_manager::acpi::ACPIDeviceError;
use device_manager::device_manager::legacy::{COM_EVT_1_3_GSI, COM_EVT_2_4_GSI, KBD_EVT_GSI};
use device_manager::device_manager::mmio::{
    MMIODevice, MMIODeviceInfo, MMIODeviceManager, MmioError, BOOT_DEVICE_MEM_START,
    BOOT_TIMER_HANDLE,
};
use device_manager::device_manager::pci_mngr::{PciDevices, PciManagerError};
use device_manager::device_manager::{AttachDeviceError, DeviceManager, FindDeviceError};
use device_manager::devices::acpi::vmclock::VmClockError;
use device_manager::devices::acpi::vmgenid::{VmGenId, VmGenIdError};
use device_manager::devices::legacy::i8042::EventCounter;
use device_manager::devices::pci::{bdf_device, bdf_new, PciBus, PciRootError, PciSegment};
use device_manager::devices::pseudo::TimestampUs;
use device_manager::devices::virtio::block::Block;
use device_manager::devices::virtio::device::VirtioDevice;
use device_manager::devices::virtio::net::Net;
use device_manager::devices::virtio::persist::VirtioBase;
use device_manager::devices::virtio::queue::Queue;
use device_manager::devices::virtio::transport::MmioTransport;
use device_manager::devices::virtio::{ActivateError, TYPE_BLOCK, TYPE_NET};
use device_manager::vstate::bus::{Bus, BusError};
use device_manager::vstate::memory::{GuestMemory, MemoryRegion};
use device_manager::vstate::resources::{AllocPolicy, ResourceAllocator};
use device_manager::vstate::vm::{DeviceRequest, HostAction, Vm};
use linux_loader::cmdline::Cmdline;

fn default_vm() -> Vm {
    Vm::new(GuestMemory::new(vec![MemoryRegion { start: 0, len: 128 << 20 }])).unwrap()
}

fn block(id: &str) -> VirtioDevice {
    VirtioDevice::Block(Block {
        id: id.to_string(),
        base: VirtioBase {
            avail_features: 0,
            acked_features: 0,
            queues: vec![Queue::new(256)],
            activated: false,
        },
        vhost_user: false,
        pending_ops: 0,
    })
}

fn net(id: &str) -> VirtioDevice {
    VirtioDevice::Net(Net::new(id.to_string(), None))
}

fn ready_queue(at: u64) -> Queue {
    Queue {
        max_size: 256,
        size: 16,
        ready: true,
        desc_table: at,
        avail_ring: at + 0x1000,
        used_ring: at + 0x2000,
        next_avail: 0,
        next_used: 0,
    }
}

fn active_block(id: &str, mem: &GuestMemory) -> VirtioDevice {
    let mut dev = Block {
        id: id.to_string(),
        base: VirtioBase {
            avail_features: 0,
            acked_features: 0,
            queues: vec![ready_queue(0x10000)],
            activated: false,
        },
        vhost_user: false,
        pending_ops: 0,
    };
    dev.base.activate(mem).unwrap();
    VirtioDevice::Block(dev)
}

fn boot_args(cmdline: &Cmdline) -> String {
    cmdline.as_cstring().unwrap().into_string().unwrap()
}

#[test]
fn interrupt_lines_are_handed_out_in_rising_runs() {
    let mut allocator = ResourceAllocator::new().unwrap();
    assert_eq!(allocator.allocate_gsi_legacy(1).unwrap(), vec![5]);
    assert_eq!(allocator.allocate_gsi_legacy(2).unwrap(), vec![6, 7]);
    assert_eq!(allocator.allocate_gsi_legacy(0).unwrap(), Vec::<u32>::new());
    // 16 lines are left; asking for 17 fails and takes none
    assert!(allocator.allocate_gsi_legacy(17).is_err());
    assert_eq!(allocator.allocate_gsi_legacy(16).unwrap(), (8..24).collect::<Vec<u32>>());
    assert!(allocator.allocate_gsi_legacy(1).is_err());
    assert_eq!(allocator.allocate_gsi_msi(3).unwrap(), vec![24, 25, 26]);
}

#[test]
fn address_ranges_follow_the_policy() {
    let mut allocator = ResourceAllocator::new().unwrap();
    assert_eq!(
        allocator.allocate_32bit_mmio_memory(0x1000, 0x1000, AllocPolicy::FirstMatch).unwrap(),
        0xc000_1000
    );
    assert_eq!(
        allocator.allocate_32bit_mmio_memory(0x1000, 0x1000, AllocPolicy::FirstMatch).unwrap(),
        0xc000_2000
    );
    assert_eq!(
        allocator
            .allocate_32bit_mmio_memory(0x1000, 0x1000, AllocPolicy::ExactMatch(0xd000_0000))
            .unwrap(),
        0xd000_0000
    );
    // what is handed out is not handed out again
    assert!(allocator
        .allocate_32bit_mmio_memory(0x1000, 0x1000, AllocPolicy::ExactMatch(0xc000_1000))
        .is_err());
    assert_eq!(
        allocator.allocate_64bit_mmio_memory(0x8_0000, 0x8_0000, AllocPolicy::FirstMatch).unwrap(),
        0x40_0000_0000
    );
    // the last 16 bytes of the memory for platform devices
    assert_eq!(
        allocator.allocate_system_memory(16, 8, AllocPolicy::LastMatch).unwrap(),
        0x9fc00 + 0x4_0000 - 16
    );
    assert!(allocator.allocate_system_memory(0, 8, AllocPolicy::LastMatch).is_err());
    assert!(allocator.allocate_system_memory(16, 3, AllocPolicy::LastMatch).is_err());
}

#[test]
fn bus_takes_ranges_that_do_not_overlap() {
    let mut bus = Bus::new();
    assert_eq!(bus.lookup(0x1000), None);
    assert_eq!(bus.insert(7, 0x1000, 0x100), Ok(()));
    assert_eq!(bus.insert(8, 0x1100, 0x100), Ok(()));
    assert_eq!(bus.insert(9, 0x10ff, 2), Err(BusError::Overlap));
    assert_eq!(bus.insert(9, 0x0fff, 2), Err(BusError::Overlap));
    assert_eq!(bus.insert(9, 0x2000, 0), Err(BusError::InvalidRange));
    assert_eq!(bus.insert(9, u64::MAX, 2), Err(BusError::InvalidRange));
    assert_eq!(bus.insert(9, u64::MAX, 1), Ok(()));
    assert_eq!(bus.lookup(0x1000), Some((0x1000, 0x100, 7)));
    assert_eq!(bus.lookup(0x10ff), Some((0x1000, 0x100, 7)));
    assert_eq!(bus.lookup(0x1100), Some((0x1100, 0x100, 8)));
    assert_eq!(bus.lookup(0x1200), None);
    assert_eq!(bus.lookup(0xfff), None);
    assert_eq!(bus.lookup(u64::MAX), Some((u64::MAX, 1, 9)));
}

#[test]
fn new_manager_has_the_legacy_devices_only() {
    let mut vm = default_vm();
    let manager = DeviceManager::new(&mut vm, EventCounter { count: 2 });
    assert_eq!(
        vm.actions,
        vec![
            HostAction::SetStdoutNonblocking,
            HostAction::RegisterIrq { gsi: COM_EVT_1_3_GSI },
            HostAction::RegisterIrq { gsi: COM_EVT_2_4_GSI },
            HostAction::RegisterIrq { gsi: KBD_EVT_GSI },
        ]
    );
    assert!(manager.mmio_devices.virtio_devices.is_empty());
    assert!(manager.pci_devices.virtio_devices.is_empty());
    assert!(manager.pci_devices.pci_segment.is_none());
    assert!(manager.acpi_devices.vmgenid.is_none());
    assert_eq!(manager.legacy_devices.i8042.reset_evt.count, 2);
    assert_eq!(manager.legacy_devices.i8042.kbd_interrupt_evt.count, 0);
}

#[test]
fn mmio_attach_announces_the_device_and_asks_the_host() {
    let mut vm = default_vm();
    let mut manager = DeviceManager::new(&mut vm, EventCounter::new());
    let mut cmdline = Cmdline::new(4096).unwrap();
    cmdline.insert_str("console=ttyS0").unwrap();
    let before = vm.actions.len();
    manager
        .attach_virtio_device(&mut vm, "eth0".to_string(), net("eth0"), &mut cmdline, false)
        .unwrap();
    manager
        .attach_virtio_device(&mut vm, "root".to_string(), block("root"), &mut cmdline, false)
        .unwrap();
    assert_eq!(
        boot_args(&cmdline),
        "console=ttyS0 virtio_mmio.device=4K@0xc0001000:5 virtio_mmio.device=4K@0xc0002000:6"
    );
    assert_eq!(
        vm.actions[before..],
        [
            HostAction::RegisterIoEvent { addr: 0xc000_1050, queue: 0 },
            HostAction::RegisterIoEvent { addr: 0xc000_1050, queue: 1 },
            HostAction::RegisterIrq { gsi: 5 },
            HostAction::RegisterIoEvent { addr: 0xc000_2050, queue: 0 },
            HostAction::RegisterIrq { gsi: 6 },
        ]
    );
    let found = manager.mmio_devices.get_virtio_device(TYPE_BLOCK, "root").unwrap();
    assert_eq!(found.resources, MMIODeviceInfo { addr: 0xc000_2000, len: 0x1000, gsi: Some(6) });
    assert!(!found.inner.is_vhost_user);
    assert!(manager.mmio_devices.get_virtio_device(TYPE_NET, "root").is_none());
    assert!(manager.mmio_devices.get_virtio_device(TYPE_BLOCK, "eth0").is_none());
    // the bus knows the devices by their places in the registry
    assert_eq!(vm.mmio_bus.lookup(0xc000_1fff), Some((0xc000_1000, 0x1000, 0)));
    assert_eq!(vm.mmio_bus.lookup(0xc000_2000), Some((0xc000_2000, 0x1000, 1)));
    assert_eq!(manager.get_virtio_device(TYPE_NET, "eth0").unwrap().id(), "eth0");
}

#[test]
fn attaching_again_under_one_identifier_replaces_the_device() {
    let mut vm = default_vm();
    let mut manager = DeviceManager::new(&mut vm, EventCounter::new());
    let mut cmdline = Cmdline::new(4096).unwrap();
    for _ in 0..2 {
        manager
            .attach_virtio_device(&mut vm, "root".to_string(), block("root"), &mut cmdline, false)
            .unwrap();
    }
    manager
        .attach_virtio_device(&mut vm, "root".to_string(), net("root"), &mut cmdline, false)
        .unwrap();
    let keys: Vec<(u32, &str, u64)> = manager
        .mmio_devices
        .virtio_devices
        .iter()
        .map(|e| (e.device_type, e.device_id.as_str(), e.device.resources.addr))
        .collect();
    assert_eq!(keys, vec![(TYPE_BLOCK, "root", 0xc000_2000), (TYPE_NET, "root", 0xc000_3000)]);
    assert_eq!(vm.mmio_bus.lookup(0xc000_2000), Some((0xc000_2000, 0x1000, 0)));
}

#[test]
fn mmio_attach_fails_without_touching_the_registry() {
    // no room on the command line
    let mut vm = default_vm();
    let mut manager = DeviceManager::new(&mut vm, EventCounter::new());
    let actions = vm.actions.clone();
    let mut small = Cmdline::new(10).unwrap();
    let r = manager.attach_virtio_device(&mut vm, "a".to_string(), block("a"), &mut small, false);
    assert!(matches!(r, Err(AttachDeviceError::MmioTransport(MmioError::Cmdline(_)))));
    assert!(manager.mmio_devices.virtio_devices.is_empty());
    assert_eq!(vm.actions, actions);
    assert_eq!(vm.mmio_bus.lookup(0xc000_1000), None);
    assert_eq!(boot_args(&small), "");

    // something else sits where the allocator puts the device
    let mut vm = default_vm();
    let mut manager = DeviceManager::new(&mut vm, EventCounter::new());
    vm.mmio_bus.insert(99, MMIO32_MEM_START + 0x800, 0x10).unwrap();
    let mut cmdline = Cmdline::new(4096).unwrap();
    let r = manager.attach_virtio_device(&mut vm, "a".to_string(), block("a"), &mut cmdline, false);
    assert!(matches!(
        r,
        Err(AttachDeviceError::MmioTransport(MmioError::BusInsert(BusError::Overlap)))
    ));
    assert!(manager.get_virtio_device(TYPE_BLOCK, "a").is_none());

    // no interrupt line is left after 19 devices
    let mut vm = default_vm();
    let mut manager = DeviceManager::new(&mut vm, EventCounter::new());
    let mut cmdline = Cmdline::new(4096).unwrap();
    for i in 0..19 {
        let id = format!("blk{}", i);
        manager.attach_virtio_device(&mut vm, id.clone(), block(&id), &mut cmdline, false).unwrap();
    }
    let args = boot_args(&cmdline);
    let r = manager.attach_virtio_device(&mut vm, "x".to_string(), block("x"), &mut cmdline, false);
    assert!(matches!(r, Err(AttachDeviceError::MmioTransport(MmioError::Allocator(_)))));
    assert_eq!(manager.mmio_devices.virtio_devices.len(), 19);
    assert_eq!(boot_args(&cmdline), args);
    assert_eq!(manager.mmio_devices.virtio_devices[18].device.resources.gsi, Some(23));
}

#[test]
fn registering_needs_an_interrupt_line_and_a_window() {
    let mut vm = default_vm();
    let mut registry = MMIODeviceManager::new();
    let device = |info| MMIODevice { resources: info, inner: MmioTransport::new(block("a"), false) };
    let r = registry.register_mmio_virtio(
        &mut vm,
        "a".to_string(),
        device(MMIODeviceInfo { addr: 0x1000, len: 0x1000, gsi: None }),
    );
    assert!(matches!(r, Err(MmioError::InvalidIrqConfig)));
    let r = registry.register_mmio_virtio(
        &mut vm,
        "a".to_string(),
        device(MMIODeviceInfo { addr: 0x1000, len: 0x50, gsi: Some(5) }),
    );
    assert!(matches!(r, Err(MmioError::BusInsert(BusError::InvalidRange))));
    let r = registry.register_mmio_virtio(
        &mut vm,
        "a".to_string(),
        device(MMIODeviceInfo { addr: u64::MAX - 0x50, len: 0x52, gsi: Some(5) }),
    );
    assert!(matches!(r, Err(MmioError::BusInsert(BusError::InvalidRange))));
    assert!(vm.actions.is_empty());
    registry
        .register_mmio_virtio(
            &mut vm,
            "a".to_string(),
            device(MMIODeviceInfo { addr: 0x1000, len: 0x51, gsi: Some(9) }),
        )
        .unwrap();
    assert_eq!(
        vm.actions,
        vec![HostAction::RegisterIoEvent { addr: 0x1050, queue: 0 }, HostAction::RegisterIrq { gsi: 9 }]
    );
    assert!(matches!(registry.allocate_mmio_resources(&mut vm, 2), Err(MmioError::InvalidIrqConfig)));
    assert_eq!(
        registry.allocate_mmio_resources(&mut vm, 0).unwrap(),
        MMIODeviceInfo { addr: MMIO32_MEM_START, len: MMIO_LEN, gsi: None }
    );
}

#[test]
fn boot_timer_sits_at_its_fixed_place() {
    let mut vm = default_vm();
    let mut manager = DeviceManager::new(&mut vm, EventCounter::new());
    let ts = TimestampUs { time_us: 10, cputime_us: 4 };
    manager.attach_boot_timer_device(&mut vm, ts).unwrap();
    assert_eq!(
        vm.mmio_bus.lookup(BOOT_DEVICE_MEM_START + 8),
        Some((BOOT_DEVICE_MEM_START, MMIO_LEN, BOOT_TIMER_HANDLE))
    );
    let (info, timer) = manager.mmio_devices.boot_timer.unwrap();
    assert_eq!(info, MMIODeviceInfo { addr: BOOT_DEVICE_MEM_START, len: MMIO_LEN, gsi: None });
    assert_eq!(timer.start_ts, ts);
    assert!(matches!(
        manager.attach_boot_timer_device(&mut vm, ts),
        Err(AttachDeviceError::MmioTransport(MmioError::BusInsert(BusError::Overlap)))
    ));
}

#[test]
fn platform_devices_get_lower_lines_than_later_devices() {
    let mut vm = default_vm();
    let mut manager = DeviceManager::new(&mut vm, EventCounter::new());
    let mut cmdline = Cmdline::new(4096).unwrap();
    manager.attach_vmgenid_device(&mut vm).unwrap();
    manager.acpi_devices.attach_vmclock(&mut vm).unwrap();
    for id in ["a", "b", "c"] {
        manager
            .attach_virtio_device(&mut vm, id.to_string(), block(id), &mut cmdline, false)
            .unwrap();
    }
    let vmgenid = manager.acpi_devices.vmgenid().gsi;
    let vmclock = manager.acpi_devices.vmclock().gsi;
    assert_eq!((vmgenid, vmclock), (5, 6));
    for entry in &manager.mmio_devices.virtio_devices {
        assert!(entry.device.resources.gsi.unwrap() > vmclock);
    }
    assert_eq!(manager.mmio_devices.virtio_devices[2].device.resources.gsi, Some(9));
}

#[test]
fn pci_hides_the_mmio_registry() {
    let mut vm = default_vm();
    let mut manager = DeviceManager::new(&mut vm, EventCounter::new());
    let mut cmdline = Cmdline::new(4096).unwrap();
    manager
        .attach_virtio_device(&mut vm, "old".to_string(), block("old"), &mut cmdline, false)
        .unwrap();
    assert!(manager.get_virtio_device(TYPE_BLOCK, "old").is_some());
    manager.enable_pci(&mut vm).unwrap();
    assert!(manager.get_virtio_device(TYPE_BLOCK, "old").is_none());
    let args = boot_args(&cmdline);
    manager
        .attach_virtio_device(&mut vm, "new".to_string(), block("new"), &mut cmdline, false)
        .unwrap();
    assert_eq!(manager.mmio_devices.virtio_devices.len(), 1);
    assert_eq!(manager.pci_devices.virtio_devices.len(), 1);
    assert_eq!(boot_args(&cmdline), args);
    assert_eq!(manager.get_virtio_device(TYPE_BLOCK, "new").unwrap().id(), "new");
    let r = manager.with_virtio_device_with_id(TYPE_BLOCK, "old", TYPE_BLOCK, |dev| (dev, Ok(())));
    assert!(matches!(r, Err(FindDeviceError::DeviceNotFound)));
    // the snapshot holds the devices of the PCI registry only
    let state = manager.save();
    assert!(state.pci_state.pci_enabled);
    assert_eq!(state.pci_state.block_devices.len(), 1);
    assert!(state.mmio_state.block_devices.is_empty());
}

#[test]
fn pci_attach_gives_slot_vectors_and_bar() {
    let mut vm = default_vm();
    let mut registry = PciDevices::new();
    registry.attach_pci_segment(&mut vm).unwrap();
    registry.attach_pci_virtio_device(&mut vm, "eth0".to_string(), net("eth0")).unwrap();
    registry.attach_pci_virtio_device(&mut vm, "root".to_string(), block("root")).unwrap();
    let eth0 = registry.get_virtio_device(TYPE_NET, "eth0").unwrap();
    assert_eq!(eth0.pci_device_bdf, 8);
    assert_eq!(eth0.msix_vectors.vectors, vec![24, 25, 26]);
    assert_eq!(eth0.bar_address, 0x40_0000_0000);
    assert!(!eth0.device_activated);
    let root = registry.get_virtio_device(TYPE_BLOCK, "root").unwrap();
    assert_eq!(root.pci_device_bdf, 16);
    assert_eq!(root.msix_vectors.vectors, vec![27, 28]);
    assert_eq!(root.bar_address, 0x40_0008_0000);
    assert!(registry.get_virtio_device(TYPE_BLOCK, "eth0").is_none());
    assert_eq!(
        vm.actions,
        vec![
            HostAction::RegisterIoEvent { addr: 0x40_0000_6000, queue: 0 },
            HostAction::RegisterIoEvent { addr: 0x40_0000_6004, queue: 1 },
            HostAction::RegisterIoEvent { addr: 0x40_0008_6000, queue: 0 },
        ]
    );
    assert_eq!(vm.mmio_bus.lookup(0x40_0008_0000), Some((0x40_0008_0000, 0x8_0000, 1)));
    assert_eq!(vm.mmio_bus.lookup(0x40_0007_ffff), Some((0x40_0000_0000, 0x8_0000, 0)));
}

#[test]
fn pci_attach_without_a_bar_leaves_no_device_behind() {
    let mut vm = default_vm();
    // a 64-bit window with room for one BAR
    vm.resource_allocator.mmio64_memory =
        vm_allocator::AddressAllocator::new(0x40_0000_0000, 0x8_0000).unwrap();
    let mut manager = DeviceManager::new(&mut vm, EventCounter::new());
    manager.enable_pci(&mut vm).unwrap();
    let mut cmdline = Cmdline::new(4096).unwrap();
    manager
        .attach_virtio_device(&mut vm, "a".to_string(), block("a"), &mut cmdline, false)
        .unwrap();
    let actions = vm.actions.clone();
    let r = manager.attach_virtio_device(&mut vm, "b".to_string(), block("b"), &mut cmdline, false);
    assert!(matches!(
        r,
        Err(AttachDeviceError::PciTransport(PciManagerError::ResourceAllocation(
            vm_allocator::Error::ResourceNotAvailable
        )))
    ));
    assert!(manager.get_virtio_device(TYPE_BLOCK, "b").is_none());
    assert!(manager.pci_devices.get_virtio_device(TYPE_BLOCK, "b").is_none());
    assert_eq!(manager.pci_devices.virtio_devices.len(), 1);
    assert_eq!(vm.actions, actions);
    assert_eq!(vm.mmio_bus.lookup(0x40_0008_0000), None);
    assert!(manager.get_virtio_device(TYPE_BLOCK, "a").is_some());
}

#[test]
fn pci_attach_fails_without_slot_or_vectors() {
    // three interrupt lines are too few for a device with two queues... and one more
    let mut vm = default_vm();
    vm.resource_allocator.gsi_msi_allocator = vm_allocator::IdAllocator::new(24, 26).unwrap();
    let mut registry = PciDevices::new();
    registry.attach_pci_segment(&mut vm).unwrap();
    let mut three = Net::new("eth0".to_string(), None);
    three.base.queues.push(Queue::new(256));
    let r = registry.attach_pci_virtio_device(&mut vm, "eth0".to_string(), VirtioDevice::Net(three));
    assert!(matches!(r, Err(PciManagerError::ResourceAllocation(_))));
    assert!(registry.virtio_devices.is_empty());
    // the lines that were taken on the way were given back
    registry.attach_pci_virtio_device(&mut vm, "root".to_string(), block("root")).unwrap();
    assert_eq!(registry.virtio_devices[0].device.msix_vectors.vectors, vec![24, 25]);
    // the slot of the failed attach stays taken
    assert_eq!(registry.virtio_devices[0].device.pci_device_bdf, 16);

    // 31 slots
    let mut vm = default_vm();
    let mut registry = PciDevices::new();
    registry.attach_pci_segment(&mut vm).unwrap();
    for i in 0..31 {
        let id = format!("blk{}", i);
        registry.attach_pci_virtio_device(&mut vm, id.clone(), block(&id)).unwrap();
    }
    let r = registry.attach_pci_virtio_device(&mut vm, "x".to_string(), block("x"));
    assert!(matches!(r, Err(PciManagerError::PciRoot(PciRootError::NoPciDeviceSlotAvailable))));
    assert_eq!(registry.virtio_devices.len(), 31);
    assert_eq!(registry.virtio_devices[30].device.pci_device_bdf, 31 * 8);

    // the BAR lies where something else lies
    let mut vm = default_vm();
    vm.mmio_bus.insert(0, 0x40_0000_1000, 8).unwrap();
    let mut registry = PciDevices::new();
    registry.attach_pci_segment(&mut vm).unwrap();
    let r = registry.attach_pci_virtio_device(&mut vm, "x".to_string(), block("x"));
    assert!(matches!(r, Err(PciManagerError::Bus(BusError::Overlap))));
    assert!(registry.virtio_devices.is_empty());
}

#[test]
fn pci_slots_are_taken_once() {
    let mut bus = PciBus::new();
    assert_eq!(bus.next_device_id(), Ok(1));
    assert_eq!(bus.get_device_id(1), Err(PciRootError::AlreadyInUsePciDeviceSlot(1)));
    assert_eq!(bus.get_device_id(0), Err(PciRootError::AlreadyInUsePciDeviceSlot(0)));
    assert_eq!(bus.get_device_id(3), Ok(()));
    assert_eq!(bus.get_device_id(32), Err(PciRootError::InvalidPciDeviceSlot(32)));
    assert_eq!(bus.next_device_id(), Ok(2));
    assert_eq!(bus.next_device_id(), Ok(4));
    let mut segment = PciSegment::new(2);
    assert_eq!(segment.next_device_bdf(), Ok(0x2_0008));
    assert_eq!(bdf_new(0, 31), 248);
    assert_eq!(bdf_device(248), 31);
    assert_eq!(bdf_device(0x2_0008), 1);
    assert_eq!(bdf_device(0x2_000f), 1);
}

#[test]
fn operations_find_their_device_by_type_and_identifier() {
    let mut vm = default_vm();
    let mut manager = DeviceManager::new(&mut vm, EventCounter::new());
    let mut cmdline = Cmdline::new(4096).unwrap();
    manager
        .attach_virtio_device(&mut vm, "root".to_string(), block("root"), &mut cmdline, false)
        .unwrap();
    let set_pending = |dev: VirtioDevice| match dev {
        VirtioDevice::Block(mut block) => {
            block.pending_ops = 7;
            (VirtioDevice::Block(block), Ok(()))
        }
        other => (other, Err("not a block device".to_string())),
    };
    assert!(manager.with_virtio_device_with_id(TYPE_BLOCK, "root", TYPE_BLOCK, set_pending).is_ok());
    match manager.get_virtio_device(TYPE_BLOCK, "root").unwrap() {
        VirtioDevice::Block(block) => assert_eq!(block.pending_ops, 7),
        _ => unreachable!(),
    }
    let r = manager.with_virtio_device_with_id(TYPE_BLOCK, "root", TYPE_NET, |dev| (dev, Ok(())));
    assert!(matches!(r, Err(FindDeviceError::InvalidDeviceType)));
    let r = manager.with_virtio_device_with_id(TYPE_BLOCK, "none", TYPE_BLOCK, |dev| (dev, Ok(())));
    assert!(matches!(r, Err(FindDeviceError::DeviceNotFound)));
    let r = manager.with_virtio_device_with_id(TYPE_NET, "root", TYPE_NET, |dev| (dev, Ok(())));
    assert!(matches!(r, Err(FindDeviceError::DeviceNotFound)));
    let r = manager.with_virtio_device_with_id(TYPE_BLOCK, "root", TYPE_BLOCK, |dev| {
        (dev, Err("disk is gone".to_string()))
    });
    match r {
        Err(FindDeviceError::InternalDeviceError(reason)) => assert_eq!(reason, "disk is gone"),
        _ => unreachable!(),
    }
    // the same through the PCI registry
    manager.enable_pci(&mut vm).unwrap();
    manager
        .attach_virtio_device(&mut vm, "data".to_string(), block("data"), &mut cmdline, false)
        .unwrap();
    assert!(manager.with_virtio_device_with_id(TYPE_BLOCK, "data", TYPE_BLOCK, set_pending).is_ok());
    match manager.get_virtio_device(TYPE_BLOCK, "data").unwrap() {
        VirtioDevice::Block(block) => assert_eq!(block.pending_ops, 7),
        _ => unreachable!(),
    }
    assert_eq!(manager.pci_devices.virtio_devices[0].device.bar_address, 0x40_0000_0000);
}

#[test]
fn only_activated_devices_are_kicked() {
    let mut vm = default_vm();
    let mut manager = DeviceManager::new(&mut vm, EventCounter::new());
    let mut cmdline = Cmdline::new(4096).unwrap();
    let mem = vm.guest_memory.duplicate();
    manager
        .attach_virtio_device(&mut vm, "a".to_string(), block("a"), &mut cmdline, false)
        .unwrap();
    manager
        .attach_virtio_device(&mut vm, "b".to_string(), active_block("b", &mem), &mut cmdline, false)
        .unwrap();
    manager.enable_pci(&mut vm).unwrap();
    manager
        .attach_virtio_device(&mut vm, "c".to_string(), active_block("c", &mem), &mut cmdline, false)
        .unwrap();
    let before = vm.actions.len();
    manager.kick_virtio_devices(&mut vm);
    manager.mark_virtio_queue_memory_dirty(&mut vm);
    manager.emulate_serial_init(&mut vm);
    assert_eq!(
        vm.actions[before..],
        [
            HostAction::Device { request: DeviceRequest::Kick, pci: false, index: 1 },
            HostAction::Device { request: DeviceRequest::Kick, pci: true, index: 0 },
            HostAction::Device { request: DeviceRequest::MarkQueuesDirty, pci: false, index: 1 },
            HostAction::Device { request: DeviceRequest::MarkQueuesDirty, pci: true, index: 0 },
            HostAction::SerialWrite { offset: 1, value: 1 },
        ]
    );
}

#[test]
fn queues_are_valid_only_inside_guest_memory() {
    let mem = GuestMemory::new(vec![
        MemoryRegion { start: 0, len: 0x1_0000 },
        MemoryRegion { start: 0x10_0000, len: 0x1_0000 },
    ]);
    assert!(mem.check_range(0, 0x1_0000));
    assert!(!mem.check_range(0, 0x1_0001));
    assert!(mem.check_range(0x10_ffff, 1));
    assert!(!mem.check_range(0xffff, 2));
    assert!(!mem.check_range(u64::MAX, 2));
    assert!(mem.check_range(0x5000, 0));
    let q = ready_queue(0x1000);
    assert!(q.is_valid(&mem));
    assert!(!Queue { ready: false, ..q }.is_valid(&mem));
    assert!(!Queue { size: 0, ..q }.is_valid(&mem));
    assert!(!Queue { size: 512, ..q }.is_valid(&mem));
    assert!(!Queue { size: 24, ..q }.is_valid(&mem));
    assert!(!Queue { desc_table: 0x1008, ..q }.is_valid(&mem));
    assert!(!Queue { avail_ring: 0x2001, ..q }.is_valid(&mem));
    assert!(!Queue { used_ring: 0x3002, ..q }.is_valid(&mem));
    // the used ring of 16 entries takes 134 bytes
    assert!(Queue { used_ring: 0x1_0000 - 136, ..q }.is_valid(&mem));
    assert!(!Queue { used_ring: 0x1_0000 - 132, ..q }.is_valid(&mem));
    assert!(!Queue { desc_table: 0x2_0000, ..q }.is_valid(&mem));
    let mut base = VirtioBase {
        avail_features: 0,
        acked_features: 0,
        queues: vec![q, Queue::new(256)],
        activated: false,
    };
    assert_eq!(base.activate(&mem), Err(ActivateError::QueueMemoryError));
    assert!(!base.activated);
    base.queues.pop();
    assert_eq!(base.activate(&mem), Ok(()));
    assert!(base.activated);
}

#[test]
fn first_match_takes_the_lowest_aligned_place() {
    let mut allocator = ResourceAllocator::new().unwrap();
    // 0x110 addresses from the start of the window
    assert_eq!(
        allocator.allocate_32bit_mmio_memory(0x110, 0x100, AllocPolicy::FirstMatch).unwrap(),
        0xc000_1000
    );
    // the next aligned address behind them
    assert_eq!(
        allocator.allocate_32bit_mmio_memory(0x100, 0x100, AllocPolicy::FirstMatch).unwrap(),
        0xc000_1200
    );
    // the gap below is free, but holds no aligned address
    assert_eq!(
        allocator.allocate_32bit_mmio_memory(0x10, 0x100, AllocPolicy::FirstMatch).unwrap(),
        0xc000_1300
    );
    // without alignment the gap is the lowest free range
    assert_eq!(
        allocator.allocate_32bit_mmio_memory(0x10, 1, AllocPolicy::FirstMatch).unwrap(),
        0xc000_1110
    );
}

#[test]
fn last_match_takes_the_highest_aligned_place() {
    let mut allocator = ResourceAllocator::new().unwrap();
    assert_eq!(
        allocator.allocate_32bit_mmio_memory(0x110, 0x100, AllocPolicy::LastMatch).unwrap(),
        0xffff_fe00
    );
    assert_eq!(
        allocator.allocate_32bit_mmio_memory(0x100, 0x100, AllocPolicy::LastMatch).unwrap(),
        0xffff_fd00
    );
    // what is left above the first range is the highest free range
    assert_eq!(
        allocator.allocate_32bit_mmio_memory(0x10, 0x10, AllocPolicy::LastMatch).unwrap(),
        0xffff_fff0
    );
    // the whole window is too much now, and nothing is taken for it
    assert!(allocator
        .allocate_32bit_mmio_memory(0x3fff_f000, 0x1000, AllocPolicy::FirstMatch)
        .is_err());
    assert_eq!(
        allocator.allocate_32bit_mmio_memory(0x1000, 0x1000, AllocPolicy::FirstMatch).unwrap(),
        0xc000_1000
    );
}

#[test]
fn exact_match_does_not_look_whether_the_range_is_free() {
    let mut allocator = ResourceAllocator::new().unwrap();
    assert_eq!(
        allocator.allocate_32bit_mmio_memory(0x2000, 0x1000, AllocPolicy::FirstMatch).unwrap(),
        0xc000_1000
    );
    // a request that fills a range handed out is refused
    assert!(allocator
        .allocate_32bit_mmio_memory(0x2000, 0x1000, AllocPolicy::ExactMatch(0xc000_1000))
        .is_err());
    // a part of it is handed out again
    assert_eq!(
        allocator
            .allocate_32bit_mmio_memory(0x1000, 0x1000, AllocPolicy::ExactMatch(0xc000_1000))
            .unwrap(),
        0xc000_1000
    );
    // and what was left of it has become free
    assert_eq!(
        allocator.allocate_32bit_mmio_memory(0x1000, 0x1000, AllocPolicy::FirstMatch).unwrap(),
        0xc000_2000
    );
    // an address that is not aligned and a range beyond the window are refused
    assert!(allocator
        .allocate_32bit_mmio_memory(0x1000, 0x1000, AllocPolicy::ExactMatch(0xd000_0800))
        .is_err());
    assert!(allocator
        .allocate_32bit_mmio_memory(0x2000, 0x1000, AllocPolicy::ExactMatch(0xffff_f000))
        .is_err());
    assert_eq!(
        allocator
            .allocate_32bit_mmio_memory(0x1000, 0x1000, AllocPolicy::ExactMatch(0xffff_f000))
            .unwrap(),
        0xffff_f000
    );
}

#[test]
fn a_failed_generation_id_device_keeps_what_it_took() {
    // no interrupt line: nothing is taken
    let mut vm = default_vm();
    let mut manager = DeviceManager::new(&mut vm, EventCounter::new());
    vm.resource_allocator.allocate_gsi_legacy(19).unwrap();
    assert!(matches!(
        manager.attach_vmgenid_device(&mut vm),
        Err(AttachDeviceError::CreateVmGenID(ACPIDeviceError::VmGenId(
            VmGenIdError::AllocateGsi(_)
        )))
    ));
    assert!(manager.acpi_devices.vmgenid.is_none());
    assert_eq!(
        vm.resource_allocator.allocate_system_memory(16, 8, AllocPolicy::LastMatch).unwrap(),
        0x9fc00 + 0x4_0000 - 16
    );

    // no memory: the interrupt line stays taken
    let mut vm = default_vm();
    let mut manager = DeviceManager::new(&mut vm, EventCounter::new());
    vm.resource_allocator.allocate_system_memory(0x4_0000, 1, AllocPolicy::FirstMatch).unwrap();
    assert!(matches!(
        manager.attach_vmgenid_device(&mut vm),
        Err(AttachDeviceError::CreateVmGenID(ACPIDeviceError::VmGenId(
            VmGenIdError::AllocateMemory(_)
        )))
    ));
    assert!(manager.acpi_devices.vmgenid.is_none());
    assert_eq!(vm.resource_allocator.allocate_gsi_legacy(1).unwrap(), vec![6]);

    // both are there: the device has the lowest line and the highest 16 bytes
    let mut vm = default_vm();
    let mut manager = DeviceManager::new(&mut vm, EventCounter::new());
    manager.attach_vmgenid_device(&mut vm).unwrap();
    let device = manager.acpi_devices.vmgenid.unwrap();
    assert_eq!((device.gsi, device.guest_address), (5, 0x9fc00 + 0x4_0000 - 16));
}

#[test]
fn drawn_bytes_are_read_least_significant_byte_first() {
    let mut bytes = [0u8; 16];
    bytes[0] = 0x34;
    bytes[1] = 0x12;
    bytes[15] = 0x80;
    assert_eq!(VmGenId::genid_of(Ok(bytes)).unwrap(), (0x80u128 << 120) | 0x1234);
    assert!(matches!(
        VmGenId::genid_of(Err(aws_lc_rs::error::Unspecified)),
        Err(VmGenIdError::Random(_))
    ));
}

#[test]
fn post_restore_without_guest_memory_changes_nothing() {
    let mut vm = Vm::new(GuestMemory::new(vec![MemoryRegion { start: 0, len: 0x1000 }])).unwrap();
    let mut device = VmGenId::with_gen_id(0xff8, 5, 1);
    assert!(matches!(device.post_restore(&mut vm), Err(VmGenIdError::WriteGuestMemory)));
    assert_eq!(device, VmGenId::with_gen_id(0xff8, 5, 1));
    assert!(vm.actions.is_empty());
    let mut device = VmGenId::with_gen_id(0xff0, 5, 1);
    device.post_restore(&mut vm).unwrap();
    assert_eq!((device.guest_address, device.gsi), (0xff0, 5));
    assert_eq!(
        vm.actions,
        vec![
            HostAction::WriteGenerationId { addr: 0xff0, gen_id: device.gen_id },
            HostAction::TriggerInterrupt { gsi: 5 },
        ]
    );
}

#[test]
fn mmio_attach_needs_room_on_the_command_line() {
    // the argument takes 34 bytes, and the line ends with one more
    for (capacity, fits) in [(34, false), (35, true)] {
        let mut vm = default_vm();
        let mut manager = DeviceManager::new(&mut vm, EventCounter::new());
        let mut cmdline = Cmdline::new(capacity).unwrap();
        let r = manager.attach_mmio_virtio_device(
            &mut vm,
            "root".to_string(),
            block("root"),
            &mut cmdline,
            false,
        );
        if fits {
            r.unwrap();
            assert_eq!(boot_args(&cmdline), "virtio_mmio.device=4K@0xc0001000:5");
            assert!(manager.get_virtio_device(TYPE_BLOCK, "root").is_some());
        } else {
            assert!(matches!(r, Err(AttachDeviceError::MmioTransport(MmioError::Cmdline(_)))));
            assert_eq!(boot_args(&cmdline), "");
            assert!(manager.get_virtio_device(TYPE_BLOCK, "root").is_none());
            // line and window stay taken
            assert_eq!(vm.resource_allocator.allocate_gsi_legacy(1).unwrap(), vec![6]);
        }
    }
    // behind other arguments a space parts the argument from them
    for (capacity, fits) in [(48, false), (49, true)] {
        let mut vm = default_vm();
        let mut manager = DeviceManager::new(&mut vm, EventCounter::new());
        let mut cmdline = Cmdline::new(capacity).unwrap();
        cmdline.insert_str("reboot=k").unwrap();
        cmdline.insert_init_args("x").unwrap();
        // 8 bytes of boot arguments, 4 of the separator, 1 of the init arguments, the end
        // of the line, a space and the 34 bytes of the argument
        let r = manager.attach_mmio_virtio_device(
            &mut vm,
            "root".to_string(),
            block("root"),
            &mut cmdline,
            false,
        );
        assert_eq!(r.is_ok(), fits);
    }
}

#[test]
fn a_failed_clock_device_keeps_its_line() {
    let mut vm = default_vm();
    let mut manager = DeviceManager::new(&mut vm, EventCounter::new());
    vm.resource_allocator.allocate_system_memory(0x4_0000, 1, AllocPolicy::FirstMatch).unwrap();
    let r = manager.acpi_devices.attach_vmclock(&mut vm);
    assert!(matches!(r, Err(ACPIDeviceError::VmClock(VmClockError::AllocateMemory(_)))));
    assert!(manager.acpi_devices.vmclock.is_none());
    assert_eq!(vm.resource_allocator.allocate_gsi_legacy(1).unwrap(), vec![6]);

    let mut vm = default_vm();
    let mut manager = DeviceManager::new(&mut vm, EventCounter::new());
    vm.resource_allocator.allocate_gsi_legacy(19).unwrap();
    let r = manager.acpi_devices.attach_vmclock(&mut vm);
    assert!(matches!(r, Err(ACPIDeviceError::VmClock(VmClockError::AllocateGsi(_)))));
    // a line and a page are all it needs
    let mut vm = default_vm();
    let mut manager = DeviceManager::new(&mut vm, EventCounter::new());
    manager.acpi_devices.attach_vmclock(&mut vm).unwrap();
    let clock = manager.acpi_devices.vmclock.unwrap();
    assert_eq!((clock.gsi, clock.guest_address), (5, 0xde000));
}

#[test]
fn new_devices_get_lines_that_no_device_has() {
    let mut vm = default_vm();
    let mut manager = DeviceManager::new(&mut vm, EventCounter::new());
    let mut cmdline = Cmdline::new(4096).unwrap();
    let mut lines = Vec::new();
    for id in ["a", "b", "c", "d"] {
        manager
            .attach_mmio_virtio_device(&mut vm, id.to_string(), block(id), &mut cmdline, false)
            .unwrap();
        let line = manager
            .mmio_devices
            .get_virtio_device(TYPE_BLOCK, id)
            .unwrap()
            .resources
            .gsi
            .unwrap();
        assert!(!lines.contains(&line));
        lines.push(line);
    }
    assert_eq!(lines, vec![5, 6, 7, 8]);
}
