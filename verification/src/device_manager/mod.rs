//! The registries of devices and the manager that owns them.

use vstd::prelude::*;

use crate::device_manager::acpi::{ACPIDeviceError, ACPIDeviceManager};
use crate::device_manager::legacy::{
    legacy_irq_actions, PortIODeviceManager, IER_RDA_BIT, IER_RDA_OFFSET,
};
use crate::device_manager::mmio::{
    boot_attached, boot_can_attach, boot_refused, mmio_resources_left, next_window_free,
    platform_attached, position_of, same_platform, MMIODevice, MMIODeviceManager, MmioEntry,
    MmioError,
};
use crate::device_manager::pci_mngr::{
    disabled_snapshot, empty_slots, pci_all_quiesced, pci_attach_outcome, pci_captured,
    pci_position_of, pci_restore_outcome, pci_world_of, PciDevices, PciDevicesConstructorArgs,
    PciDevicesState, PciDevicesStateView, PciEntry, PciManagerError, RestoredPciWorld,
};
use crate::device_manager::persist::{
    all_quiesced, captured, captured_legacy, captured_with, restore_outcome, world_of,
    ACPIDeviceManagerConstructorArgs,
    ACPIDeviceManagerRestoreError, ACPIDeviceManagerState, DeviceStates, DeviceStatesView,
    MMIODevManagerConstructorArgs, RestoredWorld,
};
use crate::devices::acpi::vmgenid::VMGenIDState;
use crate::event_manager::EventManager;
use crate::resources::VmResources;
use crate::arch::MMIO_LEN;
use crate::arch::DeviceType;
use crate::cmdline::{
    boot_args_with, cmdline_as_string, cmdline_boot_args, cmdline_has_room, cmdline_line,
    contains, occurs,
};
use crate::device_manager::mmio::{earlycon_arg, RTC_HANDLE, SERIAL_HANDLE};
use crate::vstate::resources::{id_allocated, lemma_later_ids_are_larger};
use crate::devices::acpi::vmgenid::{vmgenid_failed, vmgenid_resources_taken};
use crate::devices::legacy::i8042::{EventCounter, I8042Device};
use crate::devices::pseudo::{BootTimer, TimestampUs};
use crate::devices::virtio::device::VirtioDevice;
use crate::devices::virtio::pci_transport::VirtioPciDevice;
use crate::devices::virtio::transport::MmioTransport;
use crate::vstate::resources::id_run_free;
use crate::vstate::vm::{device_requests, DeviceRequest, HostAction, Vm};

pub mod acpi;
pub mod legacy;
pub mod manager_roundtrip;
pub mod mmio;
pub mod pci_mngr;
pub mod pci_roundtrip;
pub mod persist;
pub mod roundtrip;

verus! {

/// Why a device could not be attached.
#[derive(Debug)]
pub enum AttachDeviceError {
    /// The registry of memory-mapped devices did not take the device.
    MmioTransport(MmioError),
    /// The platform device could not be made.
    CreateVmGenID(ACPIDeviceError),
    /// The registry of PCI devices did not take the device.
    PciTransport(PciManagerError),
    /// The kernel command line could not be read.
    Cmdline,
}

/// Why an operation on a device could not be done.
#[derive(Debug)]
pub enum FindDeviceError {
    /// The device is not of the kind that the operation is for.
    InvalidDeviceType,
    /// There is no device of this type and identifier.
    DeviceNotFound,
    /// The operation itself has failed, for the reason it gives.
    InternalDeviceError(String),
}

/// The manager of all devices of a machine.
#[derive(Debug)]
pub struct DeviceManager {
    /// The memory-mapped devices.
    pub mmio_devices: MMIODeviceManager,
    /// The legacy devices.
    pub legacy_devices: PortIODeviceManager,
    /// The platform devices.
    pub acpi_devices: ACPIDeviceManager,
    /// The PCI devices.
    pub pci_devices: PciDevices,
}

/// The result `r` of attaching a device as the registry of memory-mapped devices gave it.
pub open spec fn mmio_result(r: Result<(), AttachDeviceError>) -> Result<(), MmioError> {
    match r {
        Err(AttachDeviceError::MmioTransport(err)) => Err(err),
        _ => Ok(()),
    }
}

/// The result `r` of attaching a device as the registry of PCI devices gave it.
pub open spec fn pci_result(r: Result<(), AttachDeviceError>) -> Result<(), PciManagerError> {
    match r {
        Err(AttachDeviceError::PciTransport(err)) => Err(err),
        _ => Ok(()),
    }
}

/// The requests that making the legacy devices sends to the host.
pub open spec fn legacy_actions() -> Seq<HostAction> {
    seq![HostAction::SetStdoutNonblocking] + legacy_irq_actions()
}

/// For each memory-mapped device whether it is activated.
pub open spec fn mmio_activated(entries: Seq<MmioEntry>) -> Seq<bool> {
    entries.map_values(|e: MmioEntry| e.device.inner.device.spec_is_activated())
}

/// For each PCI device whether it is activated.
pub open spec fn pci_activated(entries: Seq<PciEntry>) -> Seq<bool> {
    entries.map_values(|e: PciEntry| e.device.device.spec_is_activated())
}

/// Whether `asked` is the machine `vm` but for what was asked of the host.
pub open spec fn asked_of(vm: Vm, asked: Vm) -> bool {
    &&& asked.guest_memory == vm.guest_memory
    &&& asked.resource_allocator == vm.resource_allocator
    &&& asked.mmio_bus == vm.mmio_bus
}

/// Whether the serial console and then the real-time clock can be attached to `manager`
/// on the machine `vm`, and the console announced on `cmdline`: the machine has resources
/// for the console, and however the console is attached, the command line has room for
/// its argument and the machine has resources for the clock.
pub open spec fn serial_then_rtc(
    manager: MMIODeviceManager,
    vm: Vm,
    cmdline: linux_loader::cmdline::Cmdline,
) -> bool {
    &&& mmio_resources_left(vm)
    &&& next_window_free(vm)
    &&& forall|asked: Vm, with_serial: MMIODeviceManager, mid: Vm|
        asked_of(vm, asked) && #[trigger] platform_attached(
            (manager, asked),
            (with_serial, mid),
            DeviceType::Serial,
            None,
            Ok(()),
        ) ==> {
            &&& cmdline_has_room(cmdline, earlycon_arg(with_serial.serial->0.addr).len())
            &&& mmio_resources_left(mid)
            &&& next_window_free(mid)
        }
}

/// Whether the devices of the platform can be attached to `manager` on the machine `vm`
/// with the command line `cmdline`: there is a command line to read; if it names a
/// console, [`serial_then_rtc`] holds, and else the machine has an interrupt line and a
/// register window for the real-time clock, free on the bus.
pub open spec fn legacy_can_attach(
    manager: MMIODeviceManager,
    vm: Vm,
    cmdline: linux_loader::cmdline::Cmdline,
) -> bool {
    &&& cmdline_line(cmdline) matches Some(line)
    &&& if occurs(line, "console="@) {
        serial_then_rtc(manager, vm, cmdline)
    } else {
        mmio_resources_left(vm) && next_window_free(vm)
    }
}

impl DeviceManager {
    /// Whether both registries are well formed.
    pub open spec fn wf(&self) -> bool {
        self.mmio_devices.wf() && self.pci_devices.wf()
    }

    /// Whether the devices of both registries are on the bus of `vm`.
    pub open spec fn on_bus(&self, vm: &Vm) -> bool {
        self.mmio_devices.on_bus(vm.mmio_bus.ranges()) && self.pci_devices.on_bus(
            vm.mmio_bus.ranges(),
        )
    }

    /// Whether PCI is enabled. Once it is, devices are attached to and looked up in the
    /// registry of PCI devices only.
    pub open spec fn pci_enabled(&self) -> bool {
        self.pci_devices.pci_segment is Some
    }

    /// The device of the given type and identifier in the registry that is in use, if
    /// there is one.
    pub open spec fn spec_get_virtio_device(&self, virtio_type: u32, device_id: Seq<char>) -> Option<
        VirtioDevice,
    > {
        if self.pci_enabled() {
            match pci_position_of(self.pci_devices.virtio_devices@, virtio_type, device_id) {
                Some(i) => Some(self.pci_devices.virtio_devices[i].device.device),
                None => None,
            }
        } else {
            match position_of(self.mmio_devices.virtio_devices@, virtio_type, device_id) {
                Some(i) => Some(self.mmio_devices.virtio_devices[i].device.inner.device),
                None => None,
            }
        }
    }

    /// Asks the host to stop the standard output from blocking.
    fn set_stdout_nonblocking(vm: &mut Vm)
        ensures
            final(vm).actions@ == old(vm).actions@.push(HostAction::SetStdoutNonblocking),
            final(vm).guest_memory == old(vm).guest_memory,
            final(vm).resource_allocator == old(vm).resource_allocator,
            final(vm).mmio_bus == old(vm).mmio_bus,
    {
        vm.ask(HostAction::SetStdoutNonblocking);
    }

    /// Makes the legacy devices: the i8042 controller, which resets the machine through
    /// `vcpus_exit_evt`, and the interrupt lines of the serial ports and the keyboard.
    fn create_legacy_devices(vm: &mut Vm, vcpus_exit_evt: EventCounter) -> (r: PortIODeviceManager)
        ensures
            r.i8042.wf(),
            r.i8042@ == I8042Device::spec_new(vcpus_exit_evt),
            final(vm).actions@ == old(vm).actions@ + legacy_actions(),
            final(vm).guest_memory == old(vm).guest_memory,
            final(vm).resource_allocator == old(vm).resource_allocator,
            final(vm).mmio_bus == old(vm).mmio_bus,
    {
        Self::set_stdout_nonblocking(vm);
        let i8042 = I8042Device::new(vcpus_exit_evt, EventCounter::new());
        let mut legacy_devices = PortIODeviceManager::new(i8042);
        legacy_devices.register_devices(vm);
        proof {
            assert(vm.actions@ =~= old(vm).actions@ + legacy_actions());
        }
        legacy_devices
    }

    /// A manager with the legacy devices and nothing else: no device in either registry,
    /// no platform device, PCI not enabled.
    pub fn new(vm: &mut Vm, vcpus_exit_evt: EventCounter) -> (r: Self)
        ensures
            r.wf(),
            !r.pci_enabled(),
            r.mmio_devices.virtio_devices@ == Seq::<MmioEntry>::empty(),
            r.mmio_devices.boot_timer is None,
            r.mmio_devices.serial is None,
            r.mmio_devices.rtc is None,
            r.pci_devices.virtio_devices@ == Seq::<PciEntry>::empty(),
            r.acpi_devices.vmgenid is None,
            r.acpi_devices.vmclock is None,
            r.legacy_devices.i8042.wf(),
            r.legacy_devices.i8042@ == I8042Device::spec_new(vcpus_exit_evt),
            final(vm).actions@ == old(vm).actions@ + legacy_actions(),
            final(vm).guest_memory == old(vm).guest_memory,
            final(vm).resource_allocator == old(vm).resource_allocator,
            final(vm).mmio_bus == old(vm).mmio_bus,
    {
        let legacy_devices = Self::create_legacy_devices(vm, vcpus_exit_evt);
        DeviceManager {
            mmio_devices: MMIODeviceManager::new(),
            legacy_devices,
            acpi_devices: ACPIDeviceManager::empty(),
            pci_devices: PciDevices::new(),
        }
    }

    /// Attaches `device` under `id` to the registry of memory-mapped devices, behind a
    /// transport of its own: see [`boot_attached`]. This is for a machine on which PCI is
    /// not enabled.
    pub fn attach_mmio_virtio_device(
        &mut self,
        vm: &mut Vm,
        id: String,
        device: VirtioDevice,
        cmdline: &mut linux_loader::cmdline::Cmdline,
        is_vhost_user: bool,
    ) -> (r: Result<(), AttachDeviceError>)
        requires
            !old(self).pci_enabled(),
            old(self).wf(),
            old(self).on_bus(old(vm)),
            old(vm).wf(),
        ensures
            final(self).wf(),
            final(self).on_bus(final(vm)),
            final(self).pci_devices == old(self).pci_devices,
            final(self).legacy_devices == old(self).legacy_devices,
            final(self).acpi_devices == old(self).acpi_devices,
            r matches Err(err) ==> err is MmioTransport,
            boot_attached(
                (old(self).mmio_devices, *old(vm), cmdline_boot_args(*old(cmdline))),
                (final(self).mmio_devices, *final(vm), cmdline_boot_args(*final(cmdline))),
                id,
                MmioTransport::spec_new(device, is_vhost_user),
                mmio_result(r),
            ),
            r is Ok <==> boot_can_attach(*old(vm), *old(cmdline)),
            r matches Err(AttachDeviceError::MmioTransport(cause)) ==> boot_refused(
                *old(vm),
                *old(cmdline),
                cause,
            ),
            old(self).mmio_devices.lines_held(*old(vm)) ==> final(self).mmio_devices.lines_held(
                *final(vm),
            ),
    {
        let ghost bus_before = vm.mmio_bus.ranges();
        let transport = MmioTransport::new(device, is_vhost_user);
        let r = self.mmio_devices.register_mmio_virtio_for_boot(vm, id, transport, cmdline);
        proof {
            // what is put on the bus does not take off what was there
            assert(self.pci_devices.on_bus(vm.mmio_bus.ranges())) by {
                assert forall|i: int| 0 <= i < self.pci_devices.virtio_devices.len() implies {
                    &&& vm.mmio_bus.ranges().contains_key(
                        (#[trigger] self.pci_devices.virtio_devices[i]).device.bar_address,
                    )
                    &&& vm.mmio_bus.ranges()[self.pci_devices.virtio_devices[i].device.bar_address].0
                        == crate::devices::virtio::pci_transport::CAPABILITY_BAR_SIZE
                } by {
                    let bar = self.pci_devices.virtio_devices[i].device.bar_address;
                    assert(bus_before.contains_key(bar));
                }
            }
        }
        match r {
            Ok(()) => Ok(()),
            Err(err) => Err(AttachDeviceError::MmioTransport(err)),
        }
    }

    /// Attaches `device` under `id` to the registry that is in use: the registry of PCI
    /// devices once PCI is enabled, see [`pci_attach_outcome`], and else the registry of
    /// memory-mapped devices, see [`boot_attached`], where the call succeeds exactly when
    /// [`boot_can_attach`] holds. The other registry is not touched.
    pub fn attach_virtio_device(
        &mut self,
        vm: &mut Vm,
        id: String,
        device: VirtioDevice,
        cmdline: &mut linux_loader::cmdline::Cmdline,
        is_vhost_user: bool,
    ) -> (r: Result<(), AttachDeviceError>)
        requires
            old(self).wf(),
            old(self).on_bus(old(vm)),
            old(vm).wf(),
            old(self).pci_enabled() ==> device.spec_base().queues.len() < u16::MAX,
        ensures
            final(self).wf(),
            final(self).on_bus(final(vm)),
            final(self).pci_enabled() == old(self).pci_enabled(),
            final(self).legacy_devices == old(self).legacy_devices,
            final(self).acpi_devices == old(self).acpi_devices,
            if old(self).pci_enabled() {
                &&& final(self).mmio_devices == old(self).mmio_devices
                &&& cmdline_boot_args(*final(cmdline)) == cmdline_boot_args(*old(cmdline))
                &&& r matches Err(err) ==> err is PciTransport
                &&& pci_attach_outcome(
                    (old(self).pci_devices, *old(vm)),
                    (final(self).pci_devices, *final(vm)),
                    id,
                    device,
                    pci_result(r),
                )
            } else {
                &&& final(self).pci_devices == old(self).pci_devices
                &&& r matches Err(err) ==> err is MmioTransport
                &&& boot_attached(
                    (old(self).mmio_devices, *old(vm), cmdline_boot_args(*old(cmdline))),
                    (final(self).mmio_devices, *final(vm), cmdline_boot_args(*final(cmdline))),
                    id,
                    MmioTransport::spec_new(device, is_vhost_user),
                    mmio_result(r),
                )
                &&& r is Ok <==> boot_can_attach(*old(vm), *old(cmdline))
                &&& r matches Err(AttachDeviceError::MmioTransport(cause)) ==> boot_refused(
                    *old(vm),
                    *old(cmdline),
                    cause,
                )
                &&& old(self).mmio_devices.lines_held(*old(vm))
                    ==> final(self).mmio_devices.lines_held(*final(vm))
            },
    {
        if self.pci_devices.pci_segment.is_some() {
            let ghost bus_before = vm.mmio_bus.ranges();
            let r = self.pci_devices.attach_pci_virtio_device(vm, id, device);
            proof {
                assert(self.mmio_devices.on_bus(vm.mmio_bus.ranges())) by {
                    assert forall|i: int| 0 <= i < self.mmio_devices.virtio_devices.len() implies {
                        &&& vm.mmio_bus.ranges().contains_key(
                            (#[trigger] self.mmio_devices.virtio_devices[i]).device.resources.addr,
                        )
                        &&& vm.mmio_bus.ranges()[self.mmio_devices.virtio_devices[i].device.resources.addr].0
                            == self.mmio_devices.virtio_devices[i].device.resources.len
                    } by {
                        let addr = self.mmio_devices.virtio_devices[i].device.resources.addr;
                        assert(bus_before.contains_key(addr));
                    }
                }
            }
            match r {
                Ok(()) => Ok(()),
                Err(err) => Err(AttachDeviceError::PciTransport(err)),
            }
        } else {
            self.attach_mmio_virtio_device(vm, id, device, cmdline, is_vhost_user)
        }
    }

    /// Attaches the boot timer, which counts from `request_ts`, at its fixed place on the
    /// bus of memory-mapped registers, if the place is free.
    pub fn attach_boot_timer_device(&mut self, vm: &mut Vm, request_ts: TimestampUs) -> (r: Result<
        (),
        AttachDeviceError,
    >)
        requires
            old(self).wf(),
            old(self).on_bus(old(vm)),
        ensures
            final(self).wf(),
            final(self).on_bus(final(vm)),
            final(self).mmio_devices.virtio_devices == old(self).mmio_devices.virtio_devices,
            final(self).mmio_devices.serial == old(self).mmio_devices.serial,
            final(self).mmio_devices.rtc == old(self).mmio_devices.rtc,
            final(self).pci_devices == old(self).pci_devices,
            final(self).legacy_devices == old(self).legacy_devices,
            final(self).acpi_devices == old(self).acpi_devices,
            final(vm).guest_memory == old(vm).guest_memory,
            final(vm).resource_allocator == old(vm).resource_allocator,
            final(vm).actions == old(vm).actions,
            match r {
                Ok(()) => {
                    &&& !crate::vstate::bus::overlaps_any(
                        old(vm).mmio_bus.ranges(),
                        mmio::BOOT_DEVICE_MEM_START,
                        crate::arch::MMIO_LEN,
                    )
                    &&& final(vm).mmio_bus.ranges() == old(vm).mmio_bus.ranges().insert(
                        mmio::BOOT_DEVICE_MEM_START,
                        (crate::arch::MMIO_LEN, mmio::BOOT_TIMER_HANDLE),
                    )
                    &&& final(self).mmio_devices.boot_timer matches Some(timer)
                    &&& timer.1.start_ts == request_ts
                    &&& timer.0 == (mmio::MMIODeviceInfo {
                        addr: mmio::BOOT_DEVICE_MEM_START,
                        len: crate::arch::MMIO_LEN,
                        gsi: None,
                    })
                },
                Err(_) => {
                    &&& crate::vstate::bus::overlaps_any(
                        old(vm).mmio_bus.ranges(),
                        mmio::BOOT_DEVICE_MEM_START,
                        crate::arch::MMIO_LEN,
                    )
                    &&& final(vm).mmio_bus.ranges() == old(vm).mmio_bus.ranges()
                    &&& final(self).mmio_devices.boot_timer == old(self).mmio_devices.boot_timer
                },
            },
    {
        let boot_timer = BootTimer::new(request_ts);
        let r = self.mmio_devices.register_mmio_boot_timer(&mut vm.mmio_bus, boot_timer);
        proof {
            if r is Ok {
                self.mmio_devices.lemma_stays_on_bus(
                    old(vm).mmio_bus.ranges(),
                    mmio::BOOT_DEVICE_MEM_START,
                    crate::arch::MMIO_LEN,
                    mmio::BOOT_TIMER_HANDLE,
                );
                self.pci_devices.lemma_stays_on_bus(
                    old(vm).mmio_bus.ranges(),
                    mmio::BOOT_DEVICE_MEM_START,
                    crate::arch::MMIO_LEN,
                    mmio::BOOT_TIMER_HANDLE,
                );
            }
        }
        match r {
            Ok(()) => Ok(()),
            Err(err) => Err(AttachDeviceError::MmioTransport(err)),
        }
    }

    /// Makes the generation-ID device: see [`ACPIDeviceManager::attach_vmgenid`]. A failed
    /// call leaves the manager as it was; what was taken from the allocators before the
    /// step that failed stays taken.
    pub fn attach_vmgenid_device(&mut self, vm: &mut Vm) -> (r: Result<(), AttachDeviceError>)
        requires
            old(vm).wf(),
        ensures
            final(vm).wf(),
            final(vm).guest_memory == old(vm).guest_memory,
            final(vm).mmio_bus == old(vm).mmio_bus,
            final(vm).actions == old(vm).actions,
            final(self).mmio_devices == old(self).mmio_devices,
            final(self).pci_devices == old(self).pci_devices,
            final(self).legacy_devices == old(self).legacy_devices,
            final(self).acpi_devices.vmclock == old(self).acpi_devices.vmclock,
            match r {
                Ok(()) => final(self).acpi_devices.vmgenid matches Some(device)
                    && vmgenid_resources_taken(
                    old(vm).resource_allocator,
                    final(vm).resource_allocator,
                    device,
                ),
                Err(err) => {
                    &&& err matches AttachDeviceError::CreateVmGenID(ACPIDeviceError::VmGenId(cause))
                    &&& vmgenid_failed(
                        old(vm).resource_allocator,
                        final(vm).resource_allocator,
                        cause,
                    )
                    &&& final(self).acpi_devices.vmgenid == old(self).acpi_devices.vmgenid
                },
            },
            !(exists|first: int|
                id_run_free(old(vm).resource_allocator.gsi_legacy_allocator, first, 1)) ==> r is Err,
    {
        match self.acpi_devices.attach_vmgenid(vm) {
            Ok(()) => Ok(()),
            Err(err) => Err(AttachDeviceError::CreateVmGenID(err)),
        }
    }

    /// Attaches the devices of the platform that sit on the bus of memory-mapped registers:
    /// the serial console, if the kernel command line names a console, and the real-time
    /// clock. Each gets a register window and an interrupt line from the allocators of
    /// `vm`. For the serial console the host is asked to stop the standard output from
    /// blocking and to connect the interrupt line, and the kernel is told on its command
    /// line where the console is.
    ///
    /// The call fails with `Cmdline` exactly when there is no command line to read, and
    /// then nothing changes at all; it succeeds where [`legacy_can_attach`] holds. Whatever
    /// fails, the virtio devices stay as they are.
    pub fn attach_legacy_devices_aarch64(
        &mut self,
        vm: &mut Vm,
        cmdline: &mut linux_loader::cmdline::Cmdline,
    ) -> (r: Result<(), AttachDeviceError>)
        requires
            old(self).wf(),
            old(self).on_bus(old(vm)),
            old(vm).wf(),
        ensures
            final(self).wf(),
            final(self).on_bus(final(vm)),
            final(vm).wf(),
            final(vm).guest_memory == old(vm).guest_memory,
            final(self).pci_devices == old(self).pci_devices,
            final(self).legacy_devices == old(self).legacy_devices,
            final(self).acpi_devices == old(self).acpi_devices,
            final(self).mmio_devices.virtio_devices == old(self).mmio_devices.virtio_devices,
            final(self).mmio_devices.boot_timer == old(self).mmio_devices.boot_timer,
            match r {
                Ok(()) => {
                    let console = occurs(cmdline_line(*old(cmdline))->0, "console="@);
                    let with_serial = old(vm).mmio_bus.ranges().insert(
                        final(self).mmio_devices.serial->0.addr,
                        (final(self).mmio_devices.serial->0.len, SERIAL_HANDLE),
                    );
                    &&& final(self).mmio_devices.rtc matches Some(rtc)
                    &&& rtc.len == MMIO_LEN
                    &&& rtc.gsi is Some
                    &&& !console ==> {
                        &&& final(self).mmio_devices.serial == old(self).mmio_devices.serial
                        &&& cmdline_boot_args(*final(cmdline)) == cmdline_boot_args(*old(cmdline))
                        &&& final(vm).actions@ == old(vm).actions@
                        &&& final(vm).mmio_bus.ranges() == old(vm).mmio_bus.ranges().insert(
                            rtc.addr,
                            (rtc.len, RTC_HANDLE),
                        )
                    }
                    &&& console ==> {
                        &&& final(self).mmio_devices.serial matches Some(serial)
                        &&& serial.len == MMIO_LEN
                        &&& serial.gsi is Some
                        &&& serial.gsi->0 < rtc.gsi->0
                        &&& cmdline_boot_args(*final(cmdline)) == boot_args_with(
                            cmdline_boot_args(*old(cmdline)),
                            earlycon_arg(serial.addr),
                        )
                        &&& final(vm).actions@ == old(vm).actions@.push(
                            HostAction::SetStdoutNonblocking,
                        ).push(HostAction::RegisterIrq { gsi: serial.gsi->0 })
                        &&& final(vm).mmio_bus.ranges() == with_serial.insert(
                            rtc.addr,
                            (rtc.len, RTC_HANDLE),
                        )
                    }
                },
                Err(AttachDeviceError::Cmdline) => {
                    &&& *final(self) == *old(self)
                    &&& *final(vm) == *old(vm)
                    &&& cmdline_boot_args(*final(cmdline)) == cmdline_boot_args(*old(cmdline))
                },
                Err(err) => err is MmioTransport,
            },
            r matches Err(AttachDeviceError::Cmdline) <==> cmdline_line(*old(cmdline)) is None,
            legacy_can_attach(old(self).mmio_devices, *old(vm), *old(cmdline)) ==> r is Ok,
    {
        let line = match cmdline_as_string(cmdline) {
            Some(line) => line,
            None => {
                return Err(AttachDeviceError::Cmdline);
            },
        };
        if contains(line.as_str(), "console=") {
            Self::set_stdout_nonblocking(vm);
            let ghost bus = vm.mmio_bus.ranges();
            let ghost asked = *vm;
            match self.mmio_devices.register_mmio_serial(vm, None) {
                Ok(()) => {},
                Err(err) => {
                    return Err(AttachDeviceError::MmioTransport(err));
                },
            }
            proof {
                assert(asked_of(*old(vm), asked));
                assert(platform_attached(
                    (old(self).mmio_devices, asked),
                    (self.mmio_devices, *vm),
                    DeviceType::Serial,
                    None,
                    Ok(()),
                ));
                let info = self.mmio_devices.serial->0;
                self.pci_devices.lemma_stays_on_bus(bus, info.addr, info.len, SERIAL_HANDLE);
                assert(id_allocated(vm.resource_allocator.gsi_legacy_allocator).contains(
                    info.gsi->0,
                ));
            }
            match self.mmio_devices.add_mmio_serial_to_cmdline(cmdline) {
                Ok(()) => {},
                Err(err) => {
                    return Err(AttachDeviceError::MmioTransport(err));
                },
            }
        }
        let ghost before = (self.mmio_devices, *vm);
        let r = self.mmio_devices.register_mmio_rtc(vm, None);
        proof {
            if r is Ok {
                let info = self.mmio_devices.rtc->0;
                self.pci_devices.lemma_stays_on_bus(
                    before.1.mmio_bus.ranges(),
                    info.addr,
                    info.len,
                    RTC_HANDLE,
                );
                if before.0.serial is Some && id_allocated(
                    before.1.resource_allocator.gsi_legacy_allocator,
                ).contains(before.0.serial->0.gsi->0) {
                    lemma_later_ids_are_larger(
                        before.1.resource_allocator.gsi_legacy_allocator,
                        info.gsi->0 as int,
                        1,
                        before.0.serial->0.gsi->0,
                    );
                }
            }
        }
        match r {
            Ok(()) => Ok(()),
            Err(err) => Err(AttachDeviceError::MmioTransport(err)),
        }
    }

    /// Enables PCI, which must not be enabled yet: from now on devices are attached to and
    /// looked up in the registry of PCI devices. The devices that are attached stay where
    /// they are.
    pub fn enable_pci(&mut self, vm: &mut Vm) -> (r: Result<(), PciManagerError>)
        requires
            !old(self).pci_enabled(),
            old(self).wf(),
        ensures
            r is Ok,
            final(self).wf(),
            final(self).pci_enabled(),
            *final(vm) == *old(vm),
            final(self).mmio_devices == old(self).mmio_devices,
            final(self).legacy_devices == old(self).legacy_devices,
            final(self).acpi_devices == old(self).acpi_devices,
            final(self).pci_devices.virtio_devices == old(self).pci_devices.virtio_devices,
    {
        self.pci_devices.attach_pci_segment(vm)
    }

    /// Asks the host to do `request` with every activated device: first those of the
    /// registry of memory-mapped devices, then those of the registry of PCI devices, each
    /// in the order of its registry.
    fn request_of_activated(&self, vm: &mut Vm, request: DeviceRequest)
        ensures
            final(vm).actions@ == old(vm).actions@ + device_requests(
                mmio_activated(self.mmio_devices.virtio_devices@),
                request,
                false,
            ) + device_requests(pci_activated(self.pci_devices.virtio_devices@), request, true),
            final(vm).guest_memory == old(vm).guest_memory,
            final(vm).resource_allocator == old(vm).resource_allocator,
            final(vm).mmio_bus == old(vm).mmio_bus,
    {
        let ghost mmio = mmio_activated(self.mmio_devices.virtio_devices@);
        let ghost pci = pci_activated(self.pci_devices.virtio_devices@);
        let mut i: usize = 0;
        while i < self.mmio_devices.virtio_devices.len()
            invariant
                0 <= i <= self.mmio_devices.virtio_devices.len(),
                mmio == mmio_activated(self.mmio_devices.virtio_devices@),
                vm.actions@ == old(vm).actions@ + device_requests(
                    mmio.take(i as int),
                    request,
                    false,
                ),
                vm.guest_memory == old(vm).guest_memory,
                vm.resource_allocator == old(vm).resource_allocator,
                vm.mmio_bus == old(vm).mmio_bus,
            decreases self.mmio_devices.virtio_devices.len() - i,
        {
            proof {
                assert(mmio.take(i + 1).drop_last() =~= mmio.take(i as int));
            }
            if self.mmio_devices.virtio_devices[i].device.inner.device.is_activated() {
                vm.ask(HostAction::Device { request, pci: false, index: i as u64 });
            }
            proof {
                assert(vm.actions@ =~= old(vm).actions@ + device_requests(
                    mmio.take(i + 1),
                    request,
                    false,
                ));
            }
            i += 1;
        }
        let ghost mid = vm.actions@;
        proof {
            assert(mmio.take(i as int) =~= mmio);
            assert(pci.take(0) =~= Seq::<bool>::empty());
            assert(mid =~= mid + device_requests(pci.take(0), request, true));
        }
        let mut j: usize = 0;
        while j < self.pci_devices.virtio_devices.len()
            invariant
                0 <= j <= self.pci_devices.virtio_devices.len(),
                pci == pci_activated(self.pci_devices.virtio_devices@),
                vm.actions@ == mid + device_requests(pci.take(j as int), request, true),
                vm.guest_memory == old(vm).guest_memory,
                vm.resource_allocator == old(vm).resource_allocator,
                vm.mmio_bus == old(vm).mmio_bus,
            decreases self.pci_devices.virtio_devices.len() - j,
        {
            proof {
                assert(pci.take(j + 1).drop_last() =~= pci.take(j as int));
            }
            if self.pci_devices.virtio_devices[j].device.device.is_activated() {
                vm.ask(HostAction::Device { request, pci: true, index: j as u64 });
            }
            proof {
                assert(vm.actions@ =~= mid + device_requests(pci.take(j + 1), request, true));
            }
            j += 1;
        }
        proof {
            assert(pci.take(j as int) =~= pci);
        }
    }

    /// Asks the host to wake every activated device as if its queues had been notified:
    /// first the memory-mapped devices, then the PCI devices, each in the order of their
    /// registry.
    pub fn kick_virtio_devices(&self, vm: &mut Vm)
        ensures
            final(vm).actions@ == old(vm).actions@ + device_requests(
                mmio_activated(self.mmio_devices.virtio_devices@),
                DeviceRequest::Kick,
                false,
            ) + device_requests(
                pci_activated(self.pci_devices.virtio_devices@),
                DeviceRequest::Kick,
                true,
            ),
            final(vm).guest_memory == old(vm).guest_memory,
            final(vm).resource_allocator == old(vm).resource_allocator,
            final(vm).mmio_bus == old(vm).mmio_bus,
    {
        self.request_of_activated(vm, DeviceRequest::Kick);
    }

    /// Asks the host to mark the guest memory of the queues of every activated device as
    /// written: first the memory-mapped devices, then the PCI devices, each in the order of
    /// their registry.
    pub fn mark_virtio_queue_memory_dirty(&self, vm: &mut Vm)
        ensures
            final(vm).actions@ == old(vm).actions@ + device_requests(
                mmio_activated(self.mmio_devices.virtio_devices@),
                DeviceRequest::MarkQueuesDirty,
                false,
            ) + device_requests(
                pci_activated(self.pci_devices.virtio_devices@),
                DeviceRequest::MarkQueuesDirty,
                true,
            ),
            final(vm).guest_memory == old(vm).guest_memory,
            final(vm).resource_allocator == old(vm).resource_allocator,
            final(vm).mmio_bus == old(vm).mmio_bus,
    {
        self.request_of_activated(vm, DeviceRequest::MarkQueuesDirty);
    }

    /// The device of the given type and identifier in the registry that is in use: the
    /// registry of PCI devices once PCI is enabled, else the registry of memory-mapped
    /// devices. The other registry is not looked at.
    pub fn get_virtio_device(&self, virtio_type: u32, device_id: &str) -> (r: Option<&VirtioDevice>)
        requires
            self.wf(),
        ensures
            match r {
                Some(device) => Some(*device) == self.spec_get_virtio_device(
                    virtio_type,
                    device_id@,
                ),
                None => self.spec_get_virtio_device(virtio_type, device_id@) is None,
            },
    {
        let id = String::from_str(device_id);
        if self.pci_devices.pci_segment.is_some() {
            match self.pci_devices.position(virtio_type, &id) {
                Some(i) => Some(self.pci_devices.virtio_devices[i].device.virtio_device()),
                None => None,
            }
        } else {
            match self.mmio_devices.position(virtio_type, &id) {
                Some(i) => Some(self.mmio_devices.virtio_devices[i].device.inner.device()),
                None => None,
            }
        }
    }

    /// Asks the host to enable the interrupt for received data of the serial console. A
    /// restored guest has set the console up long ago and will not do it again.
    pub fn emulate_serial_init(&self, vm: &mut Vm)
        ensures
            final(vm).actions@ == old(vm).actions@.push(
                HostAction::SerialWrite { offset: IER_RDA_OFFSET, value: IER_RDA_BIT },
            ),
            final(vm).guest_memory == old(vm).guest_memory,
            final(vm).resource_allocator == old(vm).resource_allocator,
            final(vm).mmio_bus == old(vm).mmio_bus,
    {
        vm.ask(HostAction::SerialWrite { offset: IER_RDA_OFFSET, value: IER_RDA_BIT });
    }

    /// Whether `post` is this manager with `device` in the place of the device of the
    /// given type and identifier in the registry that is in use.
    pub open spec fn replaced(
        &self,
        virtio_type: u32,
        device_id: Seq<char>,
        device: VirtioDevice,
        post: DeviceManager,
    ) -> bool {
        &&& post.legacy_devices == self.legacy_devices
        &&& post.acpi_devices == self.acpi_devices
        &&& post.pci_devices.pci_segment == self.pci_devices.pci_segment
        &&& same_platform(self.mmio_devices, post.mmio_devices)
        &&& if self.pci_enabled() {
            &&& post.mmio_devices == self.mmio_devices
            &&& pci_position_of(self.pci_devices.virtio_devices@, virtio_type, device_id)
                matches Some(i)
            &&& post.pci_devices.virtio_devices@ == self.pci_devices.virtio_devices@.update(
                i,
                PciEntry {
                    device: VirtioPciDevice { device, ..self.pci_devices.virtio_devices[i].device },
                    ..self.pci_devices.virtio_devices[i]
                },
            )
        } else {
            &&& post.pci_devices == self.pci_devices
            &&& position_of(self.mmio_devices.virtio_devices@, virtio_type, device_id)
                matches Some(i)
            &&& post.mmio_devices.virtio_devices@ == self.mmio_devices.virtio_devices@.update(
                i,
                MmioEntry {
                    device: MMIODevice {
                        inner: MmioTransport {
                            device,
                            ..self.mmio_devices.virtio_devices[i].device.inner
                        },
                        ..self.mmio_devices.virtio_devices[i].device
                    },
                    ..self.mmio_devices.virtio_devices[i]
                },
            )
        }
    }

    /// Does `f` with the device of the type `virtio_type` and the identifier `id` in the
    /// registry that is in use, if the device is of the type `kind` that `f` is for.
    ///
    /// `f` takes the device and gives it back, of the same type, with its verdict. Without
    /// such a device the call fails with `DeviceNotFound`; with a device of another type
    /// than `kind`, with `InvalidDeviceType`; in both cases nothing changes. Otherwise the
    /// device is as `f` gave it back, and the call fails exactly when `f` did, with its
    /// reason.
    pub fn with_virtio_device_with_id<F>(&mut self, virtio_type: u32, id: &str, kind: u32, f: F) -> (r:
        Result<(), FindDeviceError>) where F: FnOnce(VirtioDevice) -> (VirtioDevice, Result<(), String>)
        requires
            old(self).wf(),
            forall|device: VirtioDevice| device.spec_device_type() == kind ==> f.requires((device,)),
            forall|device: VirtioDevice, out: (VirtioDevice, Result<(), String>)|
                f.ensures((device,), out) ==> out.0.spec_device_type() == device.spec_device_type(),
        ensures
            final(self).wf(),
            match old(self).spec_get_virtio_device(virtio_type, id@) {
                None => r matches Err(FindDeviceError::DeviceNotFound) && *final(self) == *old(self),
                Some(device) => if device.spec_device_type() != kind {
                    r matches Err(FindDeviceError::InvalidDeviceType) && *final(self) == *old(self)
                } else {
                    exists|out: (VirtioDevice, Result<(), String>)|
                        {
                            &&& #[trigger] f.ensures((device,), out)
                            &&& old(self).replaced(virtio_type, id@, out.0, *final(self))
                            &&& match out.1 {
                                Ok(()) => r is Ok,
                                Err(reason) => r matches Err(
                                    FindDeviceError::InternalDeviceError(told),
                                ) && told == reason,
                            }
                        }
                },
            },
    {
        let device_id = String::from_str(id);
        if self.pci_devices.pci_segment.is_some() {
            let i = match self.pci_devices.position(virtio_type, &device_id) {
                Some(i) => i,
                None => {
                    return Err(FindDeviceError::DeviceNotFound);
                },
            };
            if self.pci_devices.virtio_devices[i].device.device.device_type() != kind {
                return Err(FindDeviceError::InvalidDeviceType);
            }
            let ghost before = self.pci_devices.virtio_devices@;
            let entry = self.pci_devices.virtio_devices.remove(i);
            let PciEntry { device_type, device_id, device: transport } = entry;
            let VirtioPciDevice {
                id,
                device,
                pci_device_bdf,
                msix_vectors,
                bar_address,
                device_activated,
                common_config,
            } = transport;
            let (device, verdict) = f(device);
            self.pci_devices.virtio_devices.insert(
                i,
                PciEntry {
                    device_type,
                    device_id,
                    device: VirtioPciDevice {
                        id,
                        device,
                        pci_device_bdf,
                        msix_vectors,
                        bar_address,
                        device_activated,
                        common_config,
                    },
                },
            );
            proof {
                let after = self.pci_devices.virtio_devices@;
                assert(after =~= before.update(i as int, after[i as int]));
                assert(old(self).replaced(virtio_type, id@, device, *self));
                assert(self.pci_devices.wf());
            }
            match verdict {
                Ok(()) => Ok(()),
                Err(reason) => Err(FindDeviceError::InternalDeviceError(reason)),
            }
        } else {
            let i = match self.mmio_devices.position(virtio_type, &device_id) {
                Some(i) => i,
                None => {
                    return Err(FindDeviceError::DeviceNotFound);
                },
            };
            if self.mmio_devices.virtio_devices[i].device.inner.device.device_type() != kind {
                return Err(FindDeviceError::InvalidDeviceType);
            }
            let ghost before = self.mmio_devices.virtio_devices@;
            let entry = self.mmio_devices.virtio_devices.remove(i);
            let MmioEntry { device_type, device_id, device: mmio_device } = entry;
            let MMIODevice { resources, inner } = mmio_device;
            let MmioTransport { device, is_vhost_user, state } = inner;
            let (device, verdict) = f(device);
            self.mmio_devices.virtio_devices.insert(
                i,
                MmioEntry {
                    device_type,
                    device_id,
                    device: MMIODevice {
                        resources,
                        inner: MmioTransport { device, is_vhost_user, state },
                    },
                },
            );
            proof {
                let after = self.mmio_devices.virtio_devices@;
                assert(after =~= before.update(i as int, after[i as int]));
                assert(old(self).replaced(virtio_type, id@, device, *self));
                assert(self.mmio_devices.wf());
            }
            match verdict {
                Ok(()) => Ok(()),
                Err(reason) => Err(FindDeviceError::InternalDeviceError(reason)),
            }
        }
    }
}

/// What a snapshot holds of the devices of a machine. Of the two registries only the one
/// in use is saved; the other part says that there is nothing.
#[derive(Debug)]
pub struct DevicesState {
    /// The memory-mapped devices.
    pub mmio_state: DeviceStates,
    /// The platform devices.
    pub acpi_state: ACPIDeviceManagerState,
    /// The PCI devices.
    pub pci_state: PciDevicesState,
}

/// A snapshot of the devices as a mathematical value.
pub struct DevicesStateView {
    pub mmio_state: DeviceStatesView,
    pub acpi_state: ACPIDeviceManagerState,
    pub pci_state: PciDevicesStateView,
}

impl DeepView for DevicesState {
    type V = DevicesStateView;

    open spec fn deep_view(&self) -> DevicesStateView {
        DevicesStateView {
            mmio_state: self.mmio_state.deep_view(),
            acpi_state: self.acpi_state,
            pci_state: self.pci_state.deep_view(),
        }
    }
}

/// Why the devices of a snapshot could not be restored.
#[derive(Debug)]
pub enum DevicePersistError {
    /// The memory-mapped devices could not be restored.
    MmioRestore(persist::DevicePersistError),
    /// The platform devices could not be restored.
    AcpiRestore(ACPIDeviceManagerRestoreError),
    /// The PCI devices could not be restored.
    PciRestore(PciManagerError),
}

/// What restoring the devices needs besides their saved state.
pub struct DeviceRestoreArgs<'a> {
    /// The machine to attach the devices to; guest memory is the one of this machine.
    pub vm: &'a mut Vm,
    /// Where the restored devices subscribe to events.
    pub event_manager: &'a mut EventManager,
    /// The event through which the i8042 controller resets the machine.
    pub vcpus_exit_evt: EventCounter,
    /// The table of resources, which gets to know every restored device.
    pub vm_resources: &'a mut VmResources,
    /// The instance identifier that the metadata service tells the guest.
    pub instance_id: &'a str,
    /// Whether the state was read from a file.
    pub restored_from_file: bool,
}

/// The snapshot that `manager` gives once its devices are brought to rest: that of the
/// registry in use, an empty one of the other registry, and the resources of the
/// generation-ID device.
pub open spec fn manager_captured(manager: DeviceManager) -> DevicesStateView {
    DevicesStateView {
        mmio_state: if manager.pci_enabled() {
            captured(Seq::empty())
        } else {
            captured_with(
                manager.mmio_devices.virtio_devices@,
                captured_legacy(manager.mmio_devices.serial, manager.mmio_devices.rtc),
            )
        },
        acpi_state: ACPIDeviceManagerState {
            vmgenid: match manager.acpi_devices.vmgenid {
                Some(device) => Some(VMGenIDState { gsi: device.gsi, addr: device.guest_address }),
                None => None,
            },
        },
        pci_state: if manager.pci_enabled() {
            pci_captured(manager.pci_devices.virtio_devices@)
        } else {
            disabled_snapshot()
        },
    }
}

/// The request that restoring the platform devices of `acpi` sends to the host: the
/// interrupt line of the generation-ID device, if the device was saved.
pub open spec fn acpi_restore_actions(acpi: ACPIDeviceManagerState) -> Seq<HostAction> {
    match acpi.vmgenid {
        Some(saved) => seq![HostAction::RegisterIrq { gsi: saved.gsi }],
        None => Seq::empty(),
    }
}

/// The requests with which a restore ends, behind those of the registry: the interrupt
/// line of the generation-ID device, and the interrupt of the serial console.
pub open spec fn closing_actions(acpi: ACPIDeviceManagerState) -> Seq<HostAction> {
    acpi_restore_actions(acpi).push(
        HostAction::SerialWrite { offset: IER_RDA_OFFSET, value: IER_RDA_BIT },
    )
}

/// Whether `manager` is what a restore gives besides its registries: the legacy devices
/// made anew around `vcpus_exit_evt`, the generation-ID device with the resources that
/// `acpi` has saved, and no clock device.
pub open spec fn platform_restored(
    manager: DeviceManager,
    acpi: ACPIDeviceManagerState,
    vcpus_exit_evt: EventCounter,
) -> bool {
    &&& manager.legacy_devices.i8042.wf()
    &&& manager.legacy_devices.i8042@ == I8042Device::spec_new(vcpus_exit_evt)
    &&& manager.acpi_devices.vmclock is None
    &&& match acpi.vmgenid {
        Some(saved) => manager.acpi_devices.vmgenid matches Some(device) && device.gsi
            == saved.gsi && device.guest_address == saved.addr,
        None => manager.acpi_devices.vmgenid is None,
    }
}

/// What restoring the snapshot `s` does to a machine, an event manager and a table of
/// resources.
///
/// The legacy devices are made first, then the registry that the snapshot says was in
/// use, as [`pci_restore_outcome`] or [`restore_outcome`] says, then the platform devices,
/// and last the serial console is set up. Guest memory and the allocators are never
/// touched. If the registry cannot be restored, the restore fails with its error. Else it
/// succeeds, unless no generation ID could be drawn for a saved generation-ID device; and
/// on success the other registry is empty, and the manager returned and what the three
/// hold make up the world that the registry's restore gives, with the closing requests
/// behind its requests to the host.
pub open spec fn manager_restored(
    pre: (Vm, EventManager, VmResources),
    post: (Vm, EventManager, VmResources),
    s: DevicesStateView,
    instance_id: Seq<char>,
    vcpus_exit_evt: EventCounter,
    r: Result<DeviceManager, DevicePersistError>,
) -> bool {
    &&& post.0.guest_memory == pre.0.guest_memory
    &&& post.0.resource_allocator == pre.0.resource_allocator
    &&& if s.pci_state.pci_enabled {
        match pci_restore_outcome(
            RestoredPciWorld {
                entries: Seq::empty(),
                slots: empty_slots(),
                bus: pre.0.mmio_bus.ranges(),
                actions: pre.0.actions@ + legacy_actions(),
                subscribers: pre.1.deep_view(),
                resources: pre.2.deep_view(),
            },
            s.pci_state,
            instance_id,
            pre.0.guest_memory,
        ) {
            Err(err) => r matches Err(DevicePersistError::PciRestore(e)) && e == err,
            Ok(after) => match r {
                Ok(manager) => {
                    &&& manager.pci_enabled()
                    &&& manager.wf()
                    &&& manager.on_bus(&post.0)
                    &&& manager.mmio_devices.virtio_devices@ == Seq::<MmioEntry>::empty()
                    &&& manager.mmio_devices.boot_timer is None
                    &&& manager.pci_devices.all_fresh(post.2.mmds)
                    &&& platform_restored(manager, s.acpi_state, vcpus_exit_evt)
                    &&& pci_world_of(manager.pci_devices, post.0, post.1, post.2) == (
                        RestoredPciWorld {
                            actions: after.actions + closing_actions(s.acpi_state),
                            ..after
                        }
                    )
                },
                Err(err) => err is AcpiRestore && s.acpi_state.vmgenid is Some,
            },
        }
    } else {
        match restore_outcome(
            RestoredWorld {
                serial: None,
                rtc: None,
                entries: Seq::empty(),
                bus: pre.0.mmio_bus.ranges(),
                actions: pre.0.actions@ + legacy_actions(),
                subscribers: pre.1.deep_view(),
                resources: pre.2.deep_view(),
            },
            s.mmio_state,
            instance_id,
            pre.0.guest_memory,
        ) {
            Err(err) => r matches Err(DevicePersistError::MmioRestore(e)) && e == err,
            Ok(after) => match r {
                Ok(manager) => {
                    &&& !manager.pci_enabled()
                    &&& manager.wf()
                    &&& manager.on_bus(&post.0)
                    &&& manager.pci_devices.virtio_devices@ == Seq::<PciEntry>::empty()
                    &&& manager.mmio_devices.boot_timer is None
                    &&& manager.mmio_devices.all_fresh(post.2.mmds)
                    &&& platform_restored(manager, s.acpi_state, vcpus_exit_evt)
                    &&& world_of(manager.mmio_devices, post.0, post.1, post.2) == (
                        RestoredWorld {
                            actions: after.actions + closing_actions(s.acpi_state),
                            ..after
                        }
                    )
                },
                Err(err) => err is AcpiRestore && s.acpi_state.vmgenid is Some,
            },
        }
    }
}

impl DeviceManager {
    /// Brings the devices of the registry in use to rest and saves them, and saves the
    /// resources of the generation-ID device. The registry that is not in use is neither
    /// touched nor saved.
    pub fn save(&mut self) -> (state: DevicesState)
        ensures
            final(self).legacy_devices == old(self).legacy_devices,
            final(self).acpi_devices == old(self).acpi_devices,
            final(self).pci_devices.pci_segment == old(self).pci_devices.pci_segment,
            same_platform(old(self).mmio_devices, final(self).mmio_devices),
            if old(self).pci_enabled() {
                &&& final(self).mmio_devices == old(self).mmio_devices
                &&& pci_all_quiesced(
                    old(self).pci_devices.virtio_devices@,
                    final(self).pci_devices.virtio_devices@,
                )
            } else {
                &&& final(self).pci_devices == old(self).pci_devices
                &&& all_quiesced(
                    old(self).mmio_devices.virtio_devices@,
                    final(self).mmio_devices.virtio_devices@,
                )
            },
            state.deep_view() == manager_captured(*final(self)),
    {
        let acpi_state = self.acpi_devices.save();
        if self.pci_devices.pci_segment.is_some() {
            let pci_state = self.pci_devices.save();
            let mmio_state = DeviceStates::new();
            proof {
                assert(mmio_state.block_devices.deep_view() =~= Seq::empty());
                assert(mmio_state.net_devices.deep_view() =~= Seq::empty());
                assert(mmio_state.deep_view() == captured(Seq::empty()));
            }
            DevicesState { mmio_state, acpi_state, pci_state }
        } else {
            let mmio_state = self.mmio_devices.save();
            let pci_state = self.pci_devices.save();
            DevicesState { mmio_state, acpi_state, pci_state }
        }
    }

    /// Rebuilds the manager from `state` on `vm`: see [`Self::restore`].
    fn restore_on(
        vm: &mut Vm,
        event_manager: &mut EventManager,
        vm_resources: &mut VmResources,
        vcpus_exit_evt: EventCounter,
        instance_id: &str,
        restored_from_file: bool,
        state: &DevicesState,
    ) -> (r: Result<DeviceManager, DevicePersistError>)
        ensures
            manager_restored(
                (*old(vm), *old(event_manager), *old(vm_resources)),
                (*final(vm), *final(event_manager), *final(vm_resources)),
                state.deep_view(),
                instance_id@,
                vcpus_exit_evt,
                r,
            ),
    {
        // The legacy devices carry no saved state: they are made anew.
        let legacy_devices = Self::create_legacy_devices(vm, vcpus_exit_evt);
        let (mmio_devices, pci_devices) = if state.pci_state.pci_enabled {
            let pci_args = PciDevicesConstructorArgs {
                vm: &mut *vm,
                vm_resources: &mut *vm_resources,
                instance_id,
                restored_from_file,
                event_manager: &mut *event_manager,
            };
            match PciDevices::restore(pci_args, &state.pci_state) {
                Ok(pci_devices) => (MMIODeviceManager::new(), pci_devices),
                Err(err) => {
                    return Err(DevicePersistError::PciRestore(err));
                },
            }
        } else {
            let mmio_args = MMIODevManagerConstructorArgs {
                vm: &mut *vm,
                event_manager: &mut *event_manager,
                vm_resources: &mut *vm_resources,
                instance_id,
                restored_from_file,
            };
            match MMIODeviceManager::restore(mmio_args, &state.mmio_state) {
                Ok(mmio_devices) => (mmio_devices, PciDevices::new()),
                Err(err) => {
                    return Err(DevicePersistError::MmioRestore(err));
                },
            }
        };
        let ghost registry_actions = vm.actions@;
        let acpi_args = ACPIDeviceManagerConstructorArgs { vm: &mut *vm };
        let acpi_devices = match ACPIDeviceManager::restore(acpi_args, &state.acpi_state) {
            Ok(acpi_devices) => acpi_devices,
            Err(err) => {
                return Err(DevicePersistError::AcpiRestore(err));
            },
        };
        let device_manager = DeviceManager {
            mmio_devices,
            legacy_devices,
            acpi_devices,
            pci_devices,
        };
        // The guest has set the serial console up before it was saved, and will not again.
        device_manager.emulate_serial_init(vm);
        proof {
            assert(vm.actions@ =~= registry_actions + closing_actions(state.acpi_state));
        }
        Ok(device_manager)
    }

    /// Rebuilds the manager from a snapshot, on the machine and with the event manager and
    /// table of resources of `args`: see [`manager_restored`]. A failed restore returns no
    /// manager.
    pub fn restore(args: DeviceRestoreArgs<'_>, state: &DevicesState) -> (r: Result<
        DeviceManager,
        DevicePersistError,
    >)
        ensures
            manager_restored(
                (*old(args.vm), *old(args.event_manager), *old(args.vm_resources)),
                (*final(args.vm), *final(args.event_manager), *final(args.vm_resources)),
                state.deep_view(),
                args.instance_id@,
                args.vcpus_exit_evt,
                r,
            ),
    {
        Self::restore_on(
            args.vm,
            args.event_manager,
            args.vm_resources,
            args.vcpus_exit_evt,
            args.instance_id,
            args.restored_from_file,
            state,
        )
    }
}

/// Once PCI is enabled, the registry of memory-mapped devices is out of sight: whatever it
/// holds, a lookup finds what the registry of PCI devices holds, and nothing else.
pub proof fn lemma_pci_hides_mmio(
    manager: DeviceManager,
    other: MMIODeviceManager,
    virtio_type: u32,
    device_id: Seq<char>,
)
    requires
        manager.pci_enabled(),
    ensures
        (DeviceManager { mmio_devices: other, ..manager }).spec_get_virtio_device(
            virtio_type,
            device_id,
        ) == manager.spec_get_virtio_device(virtio_type, device_id),
        manager.spec_get_virtio_device(virtio_type, device_id) matches Some(device) ==> exists|
            i: int,
        |
            0 <= i < manager.pci_devices.virtio_devices.len() && (
            #[trigger] manager.pci_devices.virtio_devices[i]).device_type == virtio_type
                && manager.pci_devices.virtio_devices[i].device_id@ == device_id
                && manager.pci_devices.virtio_devices[i].device.device == device,
{
    if manager.spec_get_virtio_device(virtio_type, device_id) is Some {
        let i = pci_position_of(manager.pci_devices.virtio_devices@, virtio_type, device_id)->0;
        assert(manager.pci_devices.virtio_devices[i].device_type == virtio_type);
    }
}

} // verus!
