//! The two platform devices that every machine has, made when they are attached so that
//! they draw their interrupt lines in a fixed order.

use vstd::prelude::*;

use crate::devices::acpi::aml::{
    AcpiAml, AcpiObject, GedAml, NotifyRule, NOTIFY_DEVICE_CHANGED,
};
use crate::devices::acpi::vmclock::{
    vmclock_can_be_made, vmclock_failed, vmclock_resources_taken, VmClock, VmClockError,
    VMCLOCK_SIZE,
};
use crate::devices::acpi::vmgenid::{
    vmgenid_failed, vmgenid_resources_taken, VmGenId, VmGenIdError, VMGENID_MEM_SIZE,
};
use crate::device_manager::mmio::{resources_taken, MMIODeviceInfo};
use crate::vstate::resources::{
    id_allocated, id_run_free, lemma_later_ids_are_larger, ResourceAllocator,
};
use crate::vstate::vm::{HostAction, Vm};

verus! {

/// Why a platform device could not be attached or used.
#[derive(Debug)]
pub enum ACPIDeviceError {
    /// The generation-ID device failed.
    VmGenId(VmGenIdError),
    /// The clock device failed.
    VmClock(VmClockError),
}

/// The platform devices of a machine. Both are always there in the end, but each is made
/// only when it is attached, so that the interrupt lines are drawn in the order of the
/// attach calls.
#[derive(Debug)]
pub struct ACPIDeviceManager {
    /// The generation-ID device.
    pub vmgenid: Option<VmGenId>,
    /// The clock device.
    pub vmclock: Option<VmClock>,
}

/// Whether `post` is `pre` but for its allocators, which are well formed.
pub open spec fn took_resources(pre: Vm, post: Vm) -> bool {
    &&& post.guest_memory == pre.guest_memory
    &&& post.mmio_bus == pre.mmio_bus
    &&& post.actions == pre.actions
    &&& post.wf()
}

/// The rule of the interrupt dispatcher for the line `gsi` and the device `target`: the
/// handler compares the low 8 bits of the line.
pub open spec fn notify_rule(gsi: u32, target: AcpiObject) -> NotifyRule {
    NotifyRule { line: (gsi % 0x100) as u8, target, value: NOTIFY_DEVICE_CHANGED }
}

impl ACPIDeviceManager {
    /// A manager with both devices.
    pub fn new(vmgenid: VmGenId, vmclock: VmClock) -> (r: Self)
        ensures
            r.vmgenid == Some(vmgenid),
            r.vmclock == Some(vmclock),
    {
        ACPIDeviceManager { vmgenid: Some(vmgenid), vmclock: Some(vmclock) }
    }

    /// A manager to which no device is attached yet.
    pub fn empty() -> (r: Self)
        ensures
            r.vmgenid is None,
            r.vmclock is None,
    {
        ACPIDeviceManager { vmgenid: None, vmclock: None }
    }

    /// Makes the generation-ID device, with the smallest free legacy interrupt line and
    /// memory of its own. A failed call leaves the manager as it was, and of the
    /// allocators what [`vmgenid_failed`] says.
    pub fn attach_vmgenid(&mut self, vm: &mut Vm) -> (r: Result<(), ACPIDeviceError>)
        requires
            old(vm).wf(),
        ensures
            took_resources(*old(vm), *final(vm)),
            final(self).vmclock == old(self).vmclock,
            match r {
                Ok(()) => final(self).vmgenid matches Some(device) && vmgenid_resources_taken(
                    old(vm).resource_allocator,
                    final(vm).resource_allocator,
                    device,
                ),
                Err(err) => {
                    &&& err matches ACPIDeviceError::VmGenId(cause)
                    &&& vmgenid_failed(
                        old(vm).resource_allocator,
                        final(vm).resource_allocator,
                        cause,
                    )
                    &&& final(self).vmgenid == old(self).vmgenid
                },
            },
            !(exists|first: int|
                id_run_free(old(vm).resource_allocator.gsi_legacy_allocator, first, 1)) ==> r is Err,
    {
        match VmGenId::new(&mut vm.resource_allocator) {
            Ok(device) => {
                self.vmgenid = Some(device);
                Ok(())
            },
            Err(err) => Err(ACPIDeviceError::VmGenId(err)),
        }
    }

    /// Makes the clock device, with the smallest free legacy interrupt line and memory of
    /// its own: exactly when there is a free line and the page of the clock fits. A failed
    /// call leaves the manager as it was, and of the allocators what [`vmclock_failed`]
    /// says.
    pub fn attach_vmclock(&mut self, vm: &mut Vm) -> (r: Result<(), ACPIDeviceError>)
        requires
            old(vm).wf(),
        ensures
            took_resources(*old(vm), *final(vm)),
            final(self).vmgenid == old(self).vmgenid,
            match r {
                Ok(()) => final(self).vmclock matches Some(device) && vmclock_resources_taken(
                    old(vm).resource_allocator,
                    final(vm).resource_allocator,
                    device,
                ),
                Err(err) => {
                    &&& err matches ACPIDeviceError::VmClock(cause)
                    &&& vmclock_failed(
                        old(vm).resource_allocator,
                        final(vm).resource_allocator,
                        cause,
                    )
                    &&& final(self).vmclock == old(self).vmclock
                },
            },
            r is Ok <==> vmclock_can_be_made(old(vm).resource_allocator),
    {
        match VmClock::new(&mut vm.resource_allocator) {
            Ok(device) => {
                self.vmclock = Some(device);
                Ok(())
            },
            Err(err) => Err(ACPIDeviceError::VmClock(err)),
        }
    }

    /// The generation-ID device, which must be attached.
    pub fn vmgenid(&self) -> (device: &VmGenId)
        requires
            self.vmgenid is Some,
        ensures
            Some(*device) == self.vmgenid,
    {
        self.vmgenid.as_ref().unwrap()
    }

    /// The clock device, which must be attached.
    pub fn vmclock(&self) -> (device: &VmClock)
        requires
            self.vmclock is Some,
        ensures
            Some(*device) == self.vmclock,
    {
        self.vmclock.as_ref().unwrap()
    }

    /// Asks the host to route the interrupt line of the generation-ID device, which must be
    /// attached, into the guest, and then to write the generation ID into guest memory.
    /// The line is asked for even if the generation ID does not lie in guest memory.
    pub fn activate_vmgenid(&self, vm: &mut Vm) -> (r: Result<(), ACPIDeviceError>)
        requires
            self.vmgenid is Some,
        ensures
            final(vm).guest_memory == old(vm).guest_memory,
            final(vm).resource_allocator == old(vm).resource_allocator,
            final(vm).mmio_bus == old(vm).mmio_bus,
            r is Ok <==> old(vm).guest_memory.contains_range(
                self.vmgenid->0.guest_address,
                VMGENID_MEM_SIZE,
            ),
            r is Ok ==> final(vm).actions@ == old(vm).actions@.push(
                HostAction::RegisterIrq { gsi: self.vmgenid->0.gsi },
            ).push(
                HostAction::WriteGenerationId {
                    addr: self.vmgenid->0.guest_address,
                    gen_id: self.vmgenid->0.gen_id,
                },
            ),
            r is Err ==> final(vm).actions@ == old(vm).actions@.push(
                HostAction::RegisterIrq { gsi: self.vmgenid->0.gsi },
            ),
    {
        vm.register_irq(self.vmgenid().gsi);
        match self.vmgenid().activate(vm) {
            Ok(()) => Ok(()),
            Err(err) => Err(ACPIDeviceError::VmGenId(err)),
        }
    }

    /// Asks the host to route the interrupt line of the clock device, which must be
    /// attached, into the guest, and then to write the clock page into guest memory. The
    /// line is asked for even if the page does not lie in guest memory.
    pub fn activate_vmclock(&self, vm: &mut Vm) -> (r: Result<(), ACPIDeviceError>)
        requires
            self.vmclock is Some,
        ensures
            final(vm).guest_memory == old(vm).guest_memory,
            final(vm).resource_allocator == old(vm).resource_allocator,
            final(vm).mmio_bus == old(vm).mmio_bus,
            r is Ok <==> old(vm).guest_memory.contains_range(
                self.vmclock->0.guest_address,
                VMCLOCK_SIZE,
            ),
            r is Ok ==> final(vm).actions@ == old(vm).actions@.push(
                HostAction::RegisterIrq { gsi: self.vmclock->0.gsi },
            ).push(
                HostAction::WriteVmClock {
                    addr: self.vmclock->0.guest_address,
                    disruption_marker: self.vmclock->0.disruption_marker,
                },
            ),
            r is Err ==> final(vm).actions@ == old(vm).actions@.push(
                HostAction::RegisterIrq { gsi: self.vmclock->0.gsi },
            ),
    {
        vm.register_irq(self.vmclock().gsi);
        match self.vmclock().activate(vm) {
            Ok(()) => Ok(()),
            Err(err) => Err(ACPIDeviceError::VmClock(err)),
        }
    }

    /// Starts a new life of the machine for the generation-ID device, which must be
    /// attached: the device gets a random generation ID, and the host is asked to write it
    /// into guest memory and then to raise the interrupt of the device, once. A failed
    /// call changes nothing.
    pub fn post_restore_vmgenid(&mut self, vm: &mut Vm) -> (r: Result<(), ACPIDeviceError>)
        requires
            old(self).vmgenid is Some,
        ensures
            final(vm).guest_memory == old(vm).guest_memory,
            final(vm).resource_allocator == old(vm).resource_allocator,
            final(vm).mmio_bus == old(vm).mmio_bus,
            final(self).vmclock == old(self).vmclock,
            final(self).vmgenid is Some,
            match r {
                Ok(()) => {
                    &&& final(self).vmgenid->0.guest_address == old(self).vmgenid->0.guest_address
                    &&& final(self).vmgenid->0.gsi == old(self).vmgenid->0.gsi
                    &&& final(vm).actions@ == old(vm).actions@.push(
                        HostAction::WriteGenerationId {
                            addr: old(self).vmgenid->0.guest_address,
                            gen_id: final(self).vmgenid->0.gen_id,
                        },
                    ).push(HostAction::TriggerInterrupt { gsi: old(self).vmgenid->0.gsi })
                },
                Err(err) => {
                    &&& err is VmGenId
                    &&& final(self).vmgenid == old(self).vmgenid
                    &&& final(vm).actions@ == old(vm).actions@
                },
            },
    {
        let mut device = *self.vmgenid();
        match device.post_restore(vm) {
            Ok(()) => {
                self.vmgenid = Some(device);
                Ok(())
            },
            Err(err) => Err(ACPIDeviceError::VmGenId(err)),
        }
    }

    /// Tells the guest through the clock device, which must be attached, that its clocks
    /// were disrupted: see [`VmClock::post_restore`]. A failed call changes nothing.
    pub fn post_restore_vmclock(&mut self, vm: &mut Vm) -> (r: Result<(), ACPIDeviceError>)
        requires
            old(self).vmclock is Some,
        ensures
            final(vm).guest_memory == old(vm).guest_memory,
            final(vm).resource_allocator == old(vm).resource_allocator,
            final(vm).mmio_bus == old(vm).mmio_bus,
            final(self).vmgenid == old(self).vmgenid,
            final(self).vmclock is Some,
            r is Ok <==> old(vm).guest_memory.contains_range(
                old(self).vmclock->0.guest_address,
                VMCLOCK_SIZE,
            ),
            match r {
                Ok(()) => {
                    &&& final(self).vmclock->0.guest_address == old(self).vmclock->0.guest_address
                    &&& final(self).vmclock->0.gsi == old(self).vmclock->0.gsi
                    &&& final(self).vmclock->0.disruption_marker == (if old(
                        self,
                    ).vmclock->0.disruption_marker == u64::MAX {
                        0
                    } else {
                        (old(self).vmclock->0.disruption_marker + 1) as u64
                    })
                    &&& final(vm).actions@ == old(vm).actions@.push(
                        HostAction::WriteVmClock {
                            addr: old(self).vmclock->0.guest_address,
                            disruption_marker: final(self).vmclock->0.disruption_marker,
                        },
                    ).push(HostAction::TriggerInterrupt { gsi: old(self).vmclock->0.gsi })
                },
                Err(err) => {
                    &&& err is VmClock
                    &&& final(self).vmclock == old(self).vmclock
                    &&& final(vm).actions@ == old(vm).actions@
                },
            },
    {
        let mut device = *self.vmclock();
        match device.post_restore(vm) {
            Ok(()) => {
                self.vmclock = Some(device);
                Ok(())
            },
            Err(err) => Err(ACPIDeviceError::VmClock(err)),
        }
    }

    /// What the firmware description says of the platform devices, which must both be
    /// attached: the two devices with the addresses of their memory, and the dispatcher,
    /// which listens on the interrupt lines of both and, when one is raised, notifies the
    /// device that the line belongs to. The handler tries the generation-ID device first.
    pub fn aml(&self) -> (aml: AcpiAml)
        requires
            self.vmgenid is Some,
            self.vmclock is Some,
        ensures
            aml.vmgenid.object == AcpiObject::VmGenId,
            aml.vmgenid.addr_high * 0x1_0000_0000 + aml.vmgenid.addr_low
                == self.vmgenid->0.guest_address,
            aml.vmclock.object == AcpiObject::VmClock,
            aml.vmclock.addr_high * 0x1_0000_0000 + aml.vmclock.addr_low
                == self.vmclock->0.guest_address,
            aml.ged.interrupts@ == seq![self.vmgenid->0.gsi, self.vmclock->0.gsi],
            aml.ged.rules@ == seq![
                notify_rule(self.vmgenid->0.gsi, AcpiObject::VmGenId),
                notify_rule(self.vmclock->0.gsi, AcpiObject::VmClock),
            ],
            self.vmgenid->0.gsi <= u8::MAX ==> aml.ged.rules[0].line == self.vmgenid->0.gsi,
            self.vmclock->0.gsi <= u8::MAX ==> aml.ged.rules[1].line == self.vmclock->0.gsi,
    {
        let vmgenid = self.vmgenid();
        let vmclock = self.vmclock();
        let mut interrupts: Vec<u32> = Vec::new();
        interrupts.push(vmgenid.gsi);
        interrupts.push(vmclock.gsi);
        let mut rules: Vec<NotifyRule> = Vec::new();
        rules.push(
            NotifyRule {
                line: (vmgenid.gsi % 0x100) as u8,
                target: AcpiObject::VmGenId,
                value: NOTIFY_DEVICE_CHANGED,
            },
        );
        rules.push(
            NotifyRule {
                line: (vmclock.gsi % 0x100) as u8,
                target: AcpiObject::VmClock,
                value: NOTIFY_DEVICE_CHANGED,
            },
        );
        AcpiAml { vmgenid: vmgenid.aml(), vmclock: vmclock.aml(), ged: GedAml { interrupts, rules } }
    }
}

/// The platform devices get the lowest interrupt lines: a memory-mapped device that takes
/// its resources from a machine on which the generation-ID device or the clock device has
/// its line gets a line above theirs. Taking resources only adds lines, so this holds
/// however many devices were attached in between.
pub proof fn lemma_platform_lines_are_lowest(
    manager: ACPIDeviceManager,
    pre: Vm,
    post: Vm,
    info: MMIODeviceInfo,
)
    requires
        pre.wf(),
        resources_taken(pre, post, 1, info),
        manager.vmgenid matches Some(device) ==> id_allocated(
            pre.resource_allocator.gsi_legacy_allocator,
        ).contains(device.gsi),
        manager.vmclock matches Some(device) ==> id_allocated(
            pre.resource_allocator.gsi_legacy_allocator,
        ).contains(device.gsi),
    ensures
        manager.vmgenid matches Some(device) ==> device.gsi < info.gsi->0,
        manager.vmclock matches Some(device) ==> device.gsi < info.gsi->0,
{
    let a = pre.resource_allocator.gsi_legacy_allocator;
    if manager.vmgenid is Some {
        lemma_later_ids_are_larger(a, info.gsi->0 as int, 1, manager.vmgenid->0.gsi);
    }
    if manager.vmclock is Some {
        lemma_later_ids_are_larger(a, info.gsi->0 as int, 1, manager.vmclock->0.gsi);
    }
}

/// The clock device, attached after the generation-ID device, gets a line above its line.
pub proof fn lemma_clock_line_follows(
    pre: ResourceAllocator,
    post: ResourceAllocator,
    vmgenid: VmGenId,
    vmclock: VmClock,
)
    requires
        pre.wf(),
        id_allocated(pre.gsi_legacy_allocator).contains(vmgenid.gsi),
        vmclock_resources_taken(pre, post, vmclock),
    ensures
        vmgenid.gsi < vmclock.gsi,
{
    lemma_later_ids_are_larger(pre.gsi_legacy_allocator, vmclock.gsi as int, 1, vmgenid.gsi);
}

} // verus!
