use device_manager::device_manager::acpi::{ACPIDeviceError, ACPIDeviceManager};
use device_manager::device_manager::persist::{
    ACPIDeviceManagerConstructorArgs, ACPIDeviceManagerState,
};
use device_manager::devices::acpi::aml::{AcpiObject, NotifyRule, SharedMemoryAml};
use device_manager::devices::acpi::vmclock::{VmClock, VmClockError};
use device_manager::devices::acpi::vmgenid::{VMGenIDState, VmGenId, VmGenIdError};
use device_manager::vstate::memory::{GuestMemory, MemoryRegion};
use device_manager::vstate::vm::{HostAction, Vm};

fn default_vm() -> Vm {
    Vm::new(GuestMemory::new(vec![MemoryRegion { start: 0, len: 128 << 20 }])).unwrap()
}

#[test]
fn generation_id_device_takes_line_and_memory() {
    let mut vm = default_vm();
    let mut manager = ACPIDeviceManager::empty();
    manager.attach_vmgenid(&mut vm).unwrap();
    manager.attach_vmclock(&mut vm).unwrap();
    let vmgenid = *manager.vmgenid();
    let vmclock = *manager.vmclock();
    assert_eq!(vmgenid.gsi, 5);
    assert_eq!(vmgenid.guest_address, 0xdfbf0);
    assert_eq!(vmclock.gsi, 6);
    assert_eq!(vmclock.guest_address, 0xde000);
    assert_eq!(vmclock.disruption_marker, 0);
    assert!(vm.actions.is_empty());

    manager.activate_vmgenid(&mut vm).unwrap();
    manager.activate_vmclock(&mut vm).unwrap();
    assert_eq!(
        vm.actions,
        vec![
            HostAction::RegisterIrq { gsi: 5 },
            HostAction::WriteGenerationId { addr: 0xdfbf0, gen_id: vmgenid.gen_id },
            HostAction::RegisterIrq { gsi: 6 },
            HostAction::WriteVmClock { addr: 0xde000, disruption_marker: 0 },
        ]
    );
    assert_eq!(
        manager.save(),
        ACPIDeviceManagerState { vmgenid: Some(VMGenIDState { gsi: 5, addr: 0xdfbf0 }) }
    );
}

#[test]
fn post_restore_draws_a_new_id_and_notifies_once() {
    let mut vm = default_vm();
    let state = ACPIDeviceManagerState { vmgenid: Some(VMGenIDState { gsi: 7, addr: 0x8000 }) };
    let mut restore = |vm: &mut Vm| {
        let before = vm.actions.len();
        let mut manager =
            ACPIDeviceManager::restore(ACPIDeviceManagerConstructorArgs { vm }, &state).unwrap();
        // restoring is silent but for the interrupt line
        assert_eq!(vm.actions[before..], [HostAction::RegisterIrq { gsi: 7 }]);
        assert!(manager.vmclock.is_none());
        manager.post_restore_vmgenid(vm).unwrap();
        let device = *manager.vmgenid();
        assert_eq!((device.gsi, device.guest_address), (7, 0x8000));
        assert_eq!(
            vm.actions[before + 1..],
            [
                HostAction::WriteGenerationId { addr: 0x8000, gen_id: device.gen_id },
                HostAction::TriggerInterrupt { gsi: 7 },
            ]
        );
        device.gen_id
    };
    let first = restore(&mut vm);
    let second = restore(&mut vm);
    assert_ne!(first, second);
    assert_eq!(
        vm.actions.iter().filter(|a| matches!(a, HostAction::TriggerInterrupt { .. })).count(),
        2
    );
    // nothing was saved, nothing is restored
    let manager = ACPIDeviceManager::restore(
        ACPIDeviceManagerConstructorArgs { vm: &mut vm },
        &ACPIDeviceManagerState { vmgenid: None },
    )
    .unwrap();
    assert!(manager.vmgenid.is_none());
}

#[test]
fn generation_ids_are_random() {
    let a = VmGenId::make_genid().unwrap();
    let b = VmGenId::make_genid().unwrap();
    assert_ne!(a, b);
    let device = VmGenId::from_parts(0x1000, 9).unwrap();
    assert_eq!((device.guest_address, device.gsi), (0x1000, 9));
    let again = VmGenId::restore(&device.save()).unwrap();
    assert_eq!(again.save(), VMGenIDState { gsi: 9, addr: 0x1000 });
    assert_ne!(again.gen_id, device.gen_id);
    assert_eq!(VmGenId::with_gen_id(1, 2, 3), VmGenId { gen_id: 3, guest_address: 1, gsi: 2 });
}

#[test]
fn platform_devices_must_lie_in_guest_memory() {
    let mut vm = Vm::new(GuestMemory::new(vec![MemoryRegion { start: 0, len: 0x1000 }])).unwrap();
    let mut manager = ACPIDeviceManager::new(
        VmGenId::with_gen_id(0xff8, 5, 1),
        VmClock { guest_address: 0x1000, gsi: 6, disruption_marker: 4 },
    );
    assert!(matches!(
        manager.activate_vmgenid(&mut vm),
        Err(ACPIDeviceError::VmGenId(VmGenIdError::WriteGuestMemory))
    ));
    assert!(matches!(
        manager.activate_vmclock(&mut vm),
        Err(ACPIDeviceError::VmClock(VmClockError::WriteGuestMemory))
    ));
    assert_eq!(
        vm.actions,
        vec![HostAction::RegisterIrq { gsi: 5 }, HostAction::RegisterIrq { gsi: 6 }]
    );
    assert!(matches!(
        manager.post_restore_vmgenid(&mut vm),
        Err(ACPIDeviceError::VmGenId(VmGenIdError::WriteGuestMemory))
    ));
    assert!(matches!(
        manager.post_restore_vmclock(&mut vm),
        Err(ACPIDeviceError::VmClock(VmClockError::WriteGuestMemory))
    ));
    assert_eq!(*manager.vmgenid(), VmGenId::with_gen_id(0xff8, 5, 1));
    assert_eq!(manager.vmclock().disruption_marker, 4);
    assert_eq!(vm.actions.len(), 2);

    // inside memory the clock counts the disruption and the guest is told once
    let mut vm = Vm::new(GuestMemory::new(vec![MemoryRegion { start: 0, len: 0x2000 }])).unwrap();
    manager.post_restore_vmclock(&mut vm).unwrap();
    assert_eq!(manager.vmclock().disruption_marker, 5);
    assert_eq!(
        vm.actions,
        vec![
            HostAction::WriteVmClock { addr: 0x1000, disruption_marker: 5 },
            HostAction::TriggerInterrupt { gsi: 6 },
        ]
    );
    let mut device = VmGenId::with_gen_id(0x1ff0, 5, 1);
    device.post_restore_with(&mut vm, 99).unwrap();
    assert_eq!(device, VmGenId::with_gen_id(0x1ff0, 5, 99));
    let mut wrapping = VmClock { guest_address: 0, gsi: 6, disruption_marker: u64::MAX };
    wrapping.post_restore(&mut vm).unwrap();
    assert_eq!(wrapping.disruption_marker, 0);
}

#[test]
fn platform_devices_fail_without_resources() {
    let mut vm = default_vm();
    vm.resource_allocator.allocate_gsi_legacy(19).unwrap();
    let mut manager = ACPIDeviceManager::empty();
    assert!(matches!(
        manager.attach_vmgenid(&mut vm),
        Err(ACPIDeviceError::VmGenId(VmGenIdError::AllocateGsi(_)))
    ));
    assert!(matches!(
        manager.attach_vmclock(&mut vm),
        Err(ACPIDeviceError::VmClock(VmClockError::AllocateGsi(_)))
    ));
    assert!(manager.vmgenid.is_none() && manager.vmclock.is_none());

    let mut vm = default_vm();
    vm.resource_allocator.system_memory = vm_allocator::AddressAllocator::new(0x1000, 8).unwrap();
    assert!(matches!(
        manager.attach_vmgenid(&mut vm),
        Err(ACPIDeviceError::VmGenId(VmGenIdError::AllocateMemory(_)))
    ));
    assert!(matches!(
        manager.attach_vmclock(&mut vm),
        Err(ACPIDeviceError::VmClock(VmClockError::AllocateMemory(_)))
    ));
    // the lines that were taken stay taken
    assert_eq!(vm.resource_allocator.allocate_gsi_legacy(1).unwrap(), vec![7]);
}

#[test]
fn firmware_description_names_lines_and_addresses() {
    let manager = ACPIDeviceManager::new(
        VmGenId::with_gen_id(0x1_2345_6789, 5, 1),
        VmClock { guest_address: 0xffff_f000, gsi: 0x106, disruption_marker: 0 },
    );
    let aml = manager.aml();
    assert_eq!(
        aml.vmgenid,
        SharedMemoryAml { object: AcpiObject::VmGenId, addr_low: 0x2345_6789, addr_high: 1 }
    );
    assert_eq!(
        aml.vmclock,
        SharedMemoryAml { object: AcpiObject::VmClock, addr_low: 0xffff_f000, addr_high: 0 }
    );
    assert_eq!(aml.ged.interrupts, vec![5, 0x106]);
    assert_eq!(
        aml.ged.rules,
        vec![
            NotifyRule { line: 5, target: AcpiObject::VmGenId, value: 0x80 },
            NotifyRule { line: 6, target: AcpiObject::VmClock, value: 0x80 },
        ]
    );
    assert_eq!(AcpiObject::VmGenId.path(), "_SB_.VGEN");
    assert_eq!(AcpiObject::VmClock.path(), "_SB_.VCLK");
    assert_eq!(AcpiObject::Ged.path(), "_SB_.GED_");
}
