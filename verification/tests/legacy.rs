use device_manager::arch::DeviceType;
use device_manager::device_manager::mmio::{
    MMIODeviceInfo, MMIODeviceManager, MmioError, RTC_HANDLE, SERIAL_HANDLE,
};
use device_manager::device_manager::persist::{
    ConnectedLegacyState, DevicePersistError, DeviceStates, MMIODevManagerConstructorArgs,
};
use device_manager::device_manager::{AttachDeviceError, DeviceManager};
use device_manager::cmdline::{contains, push_hex};
use device_manager::devices::legacy::i8042::EventCounter;
use device_manager::event_manager::EventManager;
use device_manager::resources::VmResources;
use device_manager::vstate::bus::BusError;
use device_manager::vstate::memory::{GuestMemory, MemoryRegion};
use device_manager::vstate::vm::{HostAction, Vm};
use linux_loader::cmdline::Cmdline;

fn default_vm() -> Vm {
    Vm::new(GuestMemory::new(vec![MemoryRegion { start: 0, len: 128 << 20 }])).unwrap()
}

fn default_device_manager(vm: &mut Vm) -> DeviceManager {
    let manager = DeviceManager::new(vm, EventCounter::new());
    vm.actions.clear();
    manager
}

#[test]
fn test_attach_legacy_serial() {
    let mut vm = default_vm();
    let mut device_manager = default_device_manager(&mut vm);
    assert!(device_manager.mmio_devices.rtc.is_none());
    assert!(device_manager.mmio_devices.serial.is_none());

    let mut cmdline = Cmdline::new(4096).unwrap();
    device_manager.attach_legacy_devices_aarch64(&mut vm, &mut cmdline).unwrap();
    assert!(device_manager.mmio_devices.rtc.is_some());
    assert!(device_manager.mmio_devices.serial.is_none());

    let mut vm = default_vm();
    let mut device_manager = default_device_manager(&mut vm);
    cmdline.insert("console", "/dev/blah").unwrap();
    device_manager.attach_legacy_devices_aarch64(&mut vm, &mut cmdline).unwrap();
    assert!(device_manager.mmio_devices.rtc.is_some());
    assert!(device_manager.mmio_devices.serial.is_some());

    assert!(cmdline.as_cstring().unwrap().into_string().unwrap().contains(&format!(
        "earlycon=uart,mmio,0x{:08x}",
        device_manager.mmio_devices.serial.as_ref().unwrap().addr
    )));

    // the console has the first register window and the lower interrupt line
    assert_eq!(
        device_manager.mmio_devices.serial,
        Some(MMIODeviceInfo { addr: 0xc000_1000, len: 0x1000, gsi: Some(5) })
    );
    assert_eq!(
        device_manager.mmio_devices.rtc,
        Some(MMIODeviceInfo { addr: 0xc000_2000, len: 0x1000, gsi: Some(6) })
    );
    assert_eq!(
        cmdline.as_cstring().unwrap().into_string().unwrap(),
        "console=/dev/blah earlycon=uart,mmio,0xc0001000"
    );
    assert_eq!(
        vm.actions,
        vec![HostAction::SetStdoutNonblocking, HostAction::RegisterIrq { gsi: 5 }]
    );
    assert_eq!(vm.mmio_bus.lookup(0xc000_1000), Some((0xc000_1000, 0x1000, SERIAL_HANDLE)));
    assert_eq!(vm.mmio_bus.lookup(0xc000_2fff), Some((0xc000_2000, 0x1000, RTC_HANDLE)));
}

#[test]
fn legacy_attach_fails_without_touching_the_devices() {
    // the command line has no room for the console
    let mut vm = default_vm();
    let mut device_manager = default_device_manager(&mut vm);
    let mut cmdline = Cmdline::new(20).unwrap();
    cmdline.insert("console", "ttyS0").unwrap();
    let r = device_manager.attach_legacy_devices_aarch64(&mut vm, &mut cmdline);
    assert!(matches!(r, Err(AttachDeviceError::MmioTransport(MmioError::Cmdline(_)))));
    assert!(device_manager.mmio_devices.rtc.is_none());
    assert_eq!(cmdline.as_cstring().unwrap().into_string().unwrap(), "console=ttyS0");

    // a command line with arguments for init only cannot be read
    let mut vm = default_vm();
    let mut device_manager = default_device_manager(&mut vm);
    let mut cmdline = Cmdline::new(4096).unwrap();
    cmdline.insert_init_args("console=x").unwrap();
    let r = device_manager.attach_legacy_devices_aarch64(&mut vm, &mut cmdline);
    assert!(matches!(r, Err(AttachDeviceError::Cmdline)));
    assert!(device_manager.mmio_devices.rtc.is_none());
    assert!(vm.actions.is_empty());

    // no interrupt line is left
    let mut vm = default_vm();
    let mut device_manager = default_device_manager(&mut vm);
    vm.resource_allocator.allocate_gsi_legacy(19).unwrap();
    let r = device_manager.attach_legacy_devices_aarch64(&mut vm, &mut Cmdline::new(64).unwrap());
    assert!(matches!(r, Err(AttachDeviceError::MmioTransport(MmioError::Allocator(_)))));

    // without a console nobody is told of one
    let registry = MMIODeviceManager::new();
    let mut cmdline = Cmdline::new(64).unwrap();
    assert!(matches!(
        registry.add_mmio_serial_to_cmdline(&mut cmdline),
        Err(MmioError::DeviceNotFound)
    ));
}

#[test]
fn legacy_devices_are_saved_and_put_back() {
    let mut vm = default_vm();
    let mut device_manager = default_device_manager(&mut vm);
    let mut cmdline = Cmdline::new(4096).unwrap();
    cmdline.insert_str("console=ttyS0").unwrap();
    device_manager.attach_legacy_devices_aarch64(&mut vm, &mut cmdline).unwrap();
    let state = device_manager.save().mmio_state;
    let serial = MMIODeviceInfo { addr: 0xc000_1000, len: 0x1000, gsi: Some(5) };
    let rtc = MMIODeviceInfo { addr: 0xc000_2000, len: 0x1000, gsi: Some(6) };
    assert_eq!(
        state.legacy_devices,
        vec![
            ConnectedLegacyState { type_: DeviceType::Serial, device_info: serial },
            ConnectedLegacyState { type_: DeviceType::Rtc, device_info: rtc },
        ]
    );

    let restore = |state: &DeviceStates| {
        let mut vm = default_vm();
        let restored = MMIODeviceManager::restore(
            MMIODevManagerConstructorArgs {
                vm: &mut vm,
                event_manager: &mut EventManager::new(),
                vm_resources: &mut VmResources::new(),
                instance_id: "id",
                restored_from_file: false,
            },
            state,
        );
        (restored, vm)
    };
    let (restored, vm) = restore(&state);
    let restored = restored.unwrap();
    assert_eq!(restored.serial, Some(serial));
    assert_eq!(restored.rtc, Some(rtc));
    assert_eq!(vm.actions, vec![HostAction::RegisterIrq { gsi: 5 }]);
    assert_eq!(vm.mmio_bus.lookup(0xc000_1008), Some((0xc000_1000, 0x1000, SERIAL_HANDLE)));
    assert_eq!(vm.mmio_bus.lookup(0xc000_2008), Some((0xc000_2000, 0x1000, RTC_HANDLE)));
    // nothing was allocated anew
    let mut vm = vm;
    assert_eq!(vm.resource_allocator.allocate_gsi_legacy(1).unwrap(), vec![5]);

    // the clock where the console is
    let mut broken = device_manager.save().mmio_state;
    broken.legacy_devices[1].device_info.addr = 0xc000_1800;
    assert!(matches!(
        restore(&broken).0,
        Err(DevicePersistError::DeviceManager(MmioError::BusInsert(BusError::Overlap)))
    ));
    // a console without an interrupt line
    let mut broken = device_manager.save().mmio_state;
    broken.legacy_devices[0].device_info.gsi = None;
    assert!(matches!(
        restore(&broken).0,
        Err(DevicePersistError::DeviceManager(MmioError::InvalidIrqConfig))
    ));
    // what is saved of other devices is passed over
    let mut other = device_manager.save().mmio_state;
    other.legacy_devices[0].type_ = DeviceType::BootTimer;
    other.legacy_devices[1].type_ = DeviceType::Virtio(2);
    let (restored, vm) = restore(&other);
    let restored = restored.unwrap();
    assert!(restored.serial.is_none() && restored.rtc.is_none());
    assert!(vm.actions.is_empty());
}

#[test]
fn text_helpers_search_and_format() {
    assert!(contains("a console=ttyS0", "console="));
    assert!(contains("console=", "console="));
    assert!(!contains("consol=e", "console="));
    assert!(!contains("onsole=", "console="));
    assert!(contains("anything", ""));
    assert!(contains("", ""));
    assert!(!contains("", "x"));
    assert!(contains("xxab", "ab"));
    let hex = |n: u64, width: u8| {
        let mut text = String::from("0x");
        push_hex(&mut text, n, width);
        text
    };
    assert_eq!(hex(0xc000_1000, 8), "0xc0001000");
    assert_eq!(hex(0x1000, 8), "0x00001000");
    assert_eq!(hex(0, 8), "0x00000000");
    assert_eq!(hex(0, 0), "0x0");
    assert_eq!(hex(0xabcdef, 1), "0xabcdef");
    assert_eq!(hex(u64::MAX, 8), "0xffffffffffffffff");
    assert_eq!(hex(0x40_0000_0000, 8), "0x4000000000");
}

#[test]
fn legacy_attach_reads_the_command_line_first() {
    // arguments for the init process without boot arguments make no command line
    let mut vm = default_vm();
    let mut manager = default_device_manager(&mut vm);
    let mut cmdline = Cmdline::new(4096).unwrap();
    cmdline.insert_init_args("/sbin/init").unwrap();
    let r = manager.attach_legacy_devices_aarch64(&mut vm, &mut cmdline);
    assert!(matches!(r, Err(AttachDeviceError::Cmdline)));
    assert!(manager.mmio_devices.rtc.is_none());
    assert!(vm.actions.is_empty());
    assert_eq!(vm.resource_allocator.allocate_gsi_legacy(1).unwrap(), vec![5]);

    // the whole line is searched, the arguments for the init process too
    let mut vm = default_vm();
    let mut manager = default_device_manager(&mut vm);
    let mut cmdline = Cmdline::new(4096).unwrap();
    cmdline.insert_str("quiet").unwrap();
    cmdline.insert_init_args("console=x").unwrap();
    manager.attach_legacy_devices_aarch64(&mut vm, &mut cmdline).unwrap();
    assert!(manager.mmio_devices.serial.is_some());
}

#[test]
fn legacy_attach_needs_room_for_the_console_argument() {
    // `console=ttyS0` takes 13 bytes, the argument for the console 29 and a space
    for (capacity, fits) in [(43, false), (44, true)] {
        let mut vm = default_vm();
        let mut manager = default_device_manager(&mut vm);
        let mut cmdline = Cmdline::new(capacity).unwrap();
        cmdline.insert("console", "ttyS0").unwrap();
        let r = manager.attach_legacy_devices_aarch64(&mut vm, &mut cmdline);
        if fits {
            r.unwrap();
            assert!(manager.mmio_devices.rtc.is_some());
            assert_eq!(
                cmdline.as_cstring().unwrap().into_string().unwrap(),
                "console=ttyS0 earlycon=uart,mmio,0xc0001000"
            );
        } else {
            assert!(matches!(r, Err(AttachDeviceError::MmioTransport(MmioError::Cmdline(_)))));
            assert!(manager.mmio_devices.serial.is_some());
            assert!(manager.mmio_devices.rtc.is_none());
        }
    }
}
