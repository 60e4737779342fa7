//! The clock device: a page of guest memory that tells the guest when its clocks were
//! disrupted, and an interrupt that tells it to look.

use vstd::prelude::*;

use crate::devices::acpi::aml::{shared_memory_aml, AcpiObject, SharedMemoryAml};
use crate::vstate::resources::{
    address_allocated, address_allocation, address_fits, address_free, id_allocated, id_run_free,
    AllocPolicy, ResourceAllocator,
};
use crate::vstate::vm::{HostAction, Vm};

verus! {

/// Bytes of guest memory that the device uses.
pub const VMCLOCK_SIZE: u64 = 0x1000;

/// Why the device could not be made or used.
#[derive(Debug)]
pub enum VmClockError {
    /// No interrupt line is left.
    AllocateGsi(vm_allocator::Error),
    /// No guest memory is left for the clock page.
    AllocateMemory(vm_allocator::Error),
    /// The clock page does not lie in guest memory.
    WriteGuestMemory,
}

/// The clock device.
#[derive(Clone, Copy, Debug, PartialEq, Eq, Structural)]
pub struct VmClock {
    /// Guest-physical address of the clock page.
    pub guest_address: u64,
    /// Interrupt line that tells the guest to look at the page.
    pub gsi: u32,
    /// How often the clocks of the guest were disrupted.
    pub disruption_marker: u64,
}

/// What taking the resources of the device does to the allocators: `device` has the
/// smallest free legacy interrupt line and one page of the memory for platform devices,
/// aligned to its size, from the highest fitting place.
pub open spec fn vmclock_resources_taken(
    pre: ResourceAllocator,
    post: ResourceAllocator,
    device: VmClock,
) -> bool {
    &&& id_run_free(pre.gsi_legacy_allocator, device.gsi as int, 1)
    &&& id_allocated(post.gsi_legacy_allocator) == id_allocated(pre.gsi_legacy_allocator).insert(
        device.gsi,
    )
    &&& address_allocation(
        pre.system_memory,
        post.system_memory,
        VMCLOCK_SIZE,
        VMCLOCK_SIZE,
        AllocPolicy::LastMatch,
        Ok(device.guest_address),
    )
    &&& post.gsi_msi_allocator == pre.gsi_msi_allocator
    &&& post.mmio32_memory == pre.mmio32_memory
    &&& post.mmio64_memory == pre.mmio64_memory
    &&& post.wf()
    &&& device.disruption_marker == 0
}

/// What a failed attempt to make the device leaves of the allocators, for each failure:
/// - without a free interrupt line nothing is taken;
/// - without memory, which is when the request for it does not fit, the smallest free
///   interrupt line is taken.
pub open spec fn vmclock_failed(pre: ResourceAllocator, post: ResourceAllocator, err: VmClockError) -> bool {
    match err {
        VmClockError::AllocateGsi(_) => {
            &&& !(exists|first: int| id_run_free(pre.gsi_legacy_allocator, first, 1))
            &&& id_allocated(post.gsi_legacy_allocator) == id_allocated(pre.gsi_legacy_allocator)
            &&& post.system_memory == pre.system_memory
            &&& post.gsi_msi_allocator == pre.gsi_msi_allocator
            &&& post.mmio32_memory == pre.mmio32_memory
            &&& post.mmio64_memory == pre.mmio64_memory
            &&& post.wf()
        },
        VmClockError::AllocateMemory(_) => {
            &&& exists|gsi: u32| vmclock_line_taken(pre, post, gsi)
        },
        VmClockError::WriteGuestMemory => false,
    }
}

/// Whether `post` is `pre` after the smallest free legacy interrupt line, `gsi`, has been
/// taken and no memory, because the page of the clock does not fit.
pub open spec fn vmclock_line_taken(pre: ResourceAllocator, post: ResourceAllocator, gsi: u32) -> bool {
    &&& id_run_free(pre.gsi_legacy_allocator, gsi as int, 1)
    &&& id_allocated(post.gsi_legacy_allocator) == id_allocated(pre.gsi_legacy_allocator).insert(
        gsi,
    )
    &&& !address_fits(pre.system_memory, VMCLOCK_SIZE, VMCLOCK_SIZE, AllocPolicy::LastMatch)
    &&& address_allocated(post.system_memory) == address_allocated(pre.system_memory)
    &&& address_free(post.system_memory) == address_free(pre.system_memory)
    &&& post.gsi_msi_allocator == pre.gsi_msi_allocator
    &&& post.mmio32_memory == pre.mmio32_memory
    &&& post.mmio64_memory == pre.mmio64_memory
    &&& post.wf()
}

/// Whether the allocators `pre` have what the clock device needs: a free legacy interrupt
/// line and room for its page in the memory for platform devices.
pub open spec fn vmclock_can_be_made(pre: ResourceAllocator) -> bool {
    &&& exists|first: int| id_run_free(pre.gsi_legacy_allocator, first, 1)
    &&& address_fits(pre.system_memory, VMCLOCK_SIZE, VMCLOCK_SIZE, AllocPolicy::LastMatch)
}

impl VmClock {
    /// A new device: takes the smallest free legacy interrupt line and one page of the
    /// memory for platform devices. It is made exactly when there is a free line and the
    /// page fits; what was taken before the step that failed stays taken.
    pub fn new(resource_allocator: &mut ResourceAllocator) -> (r: Result<Self, VmClockError>)
        requires
            old(resource_allocator).wf(),
        ensures
            final(resource_allocator).wf(),
            match r {
                Ok(device) => vmclock_resources_taken(
                    *old(resource_allocator),
                    *final(resource_allocator),
                    device,
                ),
                Err(err) => vmclock_failed(*old(resource_allocator), *final(resource_allocator), err),
            },
            r is Ok <==> vmclock_can_be_made(*old(resource_allocator)),
    {
        let gsi = match resource_allocator.allocate_gsi_legacy(1) {
            Ok(gsis) => {
                proof {
                    assert(id_allocated(resource_allocator.gsi_legacy_allocator) =~= id_allocated(
                        old(resource_allocator).gsi_legacy_allocator,
                    ).insert(gsis[0]));
                }
                gsis[0]
            },
            Err(err) => {
                return Err(VmClockError::AllocateGsi(err));
            },
        };
        let guest_address = match resource_allocator.allocate_system_memory(
            VMCLOCK_SIZE,
            VMCLOCK_SIZE,
            AllocPolicy::LastMatch,
        ) {
            Ok(addr) => addr,
            Err(err) => {
                proof {
                    assert(vmclock_line_taken(*old(resource_allocator), *resource_allocator, gsi));
                }
                return Err(VmClockError::AllocateMemory(err));
            },
        };
        Ok(VmClock { guest_address, gsi, disruption_marker: 0 })
    }

    /// Asks the host to write the clock page into guest memory, which must hold it.
    pub fn activate(&self, vm: &mut Vm) -> (r: Result<(), VmClockError>)
        ensures
            final(vm).guest_memory == old(vm).guest_memory,
            final(vm).resource_allocator == old(vm).resource_allocator,
            final(vm).mmio_bus == old(vm).mmio_bus,
            match r {
                Ok(()) => {
                    &&& old(vm).guest_memory.contains_range(self.guest_address, VMCLOCK_SIZE)
                    &&& final(vm).actions@ == old(vm).actions@.push(
                        HostAction::WriteVmClock {
                            addr: self.guest_address,
                            disruption_marker: self.disruption_marker,
                        },
                    )
                },
                Err(err) => {
                    &&& err is WriteGuestMemory
                    &&& !old(vm).guest_memory.contains_range(self.guest_address, VMCLOCK_SIZE)
                    &&& final(vm).actions@ == old(vm).actions@
                },
            },
    {
        if !vm.guest_memory.check_range(self.guest_address, VMCLOCK_SIZE) {
            return Err(VmClockError::WriteGuestMemory);
        }
        vm.ask(
            HostAction::WriteVmClock {
                addr: self.guest_address,
                disruption_marker: self.disruption_marker,
            },
        );
        Ok(())
    }

    /// Tells the guest that its clocks were disrupted: counts the disruption, asks the
    /// host to write the clock page and then to raise the interrupt of the device, once.
    pub fn post_restore(&mut self, vm: &mut Vm) -> (r: Result<(), VmClockError>)
        ensures
            final(vm).guest_memory == old(vm).guest_memory,
            final(vm).resource_allocator == old(vm).resource_allocator,
            final(vm).mmio_bus == old(vm).mmio_bus,
            match r {
                Ok(()) => {
                    &&& old(vm).guest_memory.contains_range(old(self).guest_address, VMCLOCK_SIZE)
                    &&& *final(self) == (VmClock {
                        disruption_marker: if old(self).disruption_marker == u64::MAX {
                            0
                        } else {
                            (old(self).disruption_marker + 1) as u64
                        },
                        ..*old(self)
                    })
                    &&& final(vm).actions@ == old(vm).actions@.push(
                        HostAction::WriteVmClock {
                            addr: old(self).guest_address,
                            disruption_marker: final(self).disruption_marker,
                        },
                    ).push(HostAction::TriggerInterrupt { gsi: old(self).gsi })
                },
                Err(err) => {
                    &&& err is WriteGuestMemory
                    &&& !old(vm).guest_memory.contains_range(old(self).guest_address, VMCLOCK_SIZE)
                    &&& *final(self) == *old(self)
                    &&& final(vm).actions@ == old(vm).actions@
                },
            },
    {
        let next = VmClock {
            guest_address: self.guest_address,
            gsi: self.gsi,
            disruption_marker: self.disruption_marker.wrapping_add(1),
        };
        next.activate(vm)?;
        vm.ask(HostAction::TriggerInterrupt { gsi: next.gsi });
        *self = next;
        Ok(())
    }

    /// What the firmware description says of the device.
    pub fn aml(&self) -> (aml: SharedMemoryAml)
        ensures
            aml.object == AcpiObject::VmClock,
            aml.addr_high * 0x1_0000_0000 + aml.addr_low == self.guest_address,
    {
        shared_memory_aml(AcpiObject::VmClock, self.guest_address)
    }
}

} // verus!
