//! The virtual machine that devices are attached to.

use vstd::prelude::*;

use crate::vstate::bus::Bus;
use crate::vstate::memory::GuestMemory;
use crate::devices::virtio::pci_transport::MsiVectorGroup;
use crate::vstate::resources::{id_allocation, ResourceAllocator};

verus! {

/// What the host can be asked to do with a device.
#[derive(Clone, Copy, Debug, PartialEq, Eq, Structural)]
pub enum DeviceRequest {
    /// Wake the device as if each of its queues had been notified.
    Kick,
    /// Mark the guest memory of its queues as written.
    MarkQueuesDirty,
}

/// Work that only the host can do. The library asks for it in the order in which it has
/// to happen; the caller performs it and gives up on the machine if a step fails.
#[derive(Clone, Copy, Debug, PartialEq, Eq, Structural)]
pub enum HostAction {
    /// Route the interrupt line `gsi` into the guest.
    RegisterIrq { gsi: u32 },
    /// Have guest writes of `queue` to `addr` wake the device that owns the address.
    RegisterIoEvent { addr: u64, queue: u64 },
    /// Write the 16 bytes of `gen_id`, least significant byte first, at `addr`.
    WriteGenerationId { addr: u64, gen_id: u128 },
    /// Write the clock page with the disruption marker `disruption_marker` at `addr`.
    WriteVmClock { addr: u64, disruption_marker: u64 },
    /// Raise the interrupt line `gsi`.
    TriggerInterrupt { gsi: u32 },
    /// Write `value` into the register at `offset` of the serial console.
    SerialWrite { offset: u8, value: u8 },
    /// Stop the standard output from blocking.
    SetStdoutNonblocking,
    /// Do `request` with the device at `index` of the registry of PCI devices, if `pci`,
    /// or of memory-mapped devices.
    Device { request: DeviceRequest, pci: bool, index: u64 },
}

/// One virtual machine: its memory layout, its allocators, its MMIO bus, and the work
/// that it has asked the host to do.
pub struct Vm {
    /// Layout of guest memory.
    pub guest_memory: GuestMemory,
    /// Allocators of interrupt lines and address ranges.
    pub resource_allocator: ResourceAllocator,
    /// Bus of memory-mapped registers.
    pub mmio_bus: Bus,
    /// Work for the host, oldest first.
    pub actions: Vec<HostAction>,
}

/// The requests to wake the device whose notification register is at `addr` for each of
/// its first `count` queues, lowest queue first.
pub open spec fn ioevent_actions(addr: u64, count: nat) -> Seq<HostAction> {
    Seq::new(count, |q: int| HostAction::RegisterIoEvent { addr, queue: q as u64 })
}

/// The requests `request` for the devices of one registry, of which `activated` tells for
/// each place whether the device there is activated: one request for each activated
/// device, in the order of the registry.
pub open spec fn device_requests(activated: Seq<bool>, request: DeviceRequest, pci: bool) -> Seq<
    HostAction,
>
    decreases activated.len(),
{
    if activated.len() == 0 {
        Seq::empty()
    } else {
        let rest = device_requests(activated.drop_last(), request, pci);
        if activated.last() {
            rest.push(
                HostAction::Device { request, pci, index: (activated.len() - 1) as u64 },
            )
        } else {
            rest
        }
    }
}

impl Vm {
    /// Whether the allocators are in the state that attach operations rely on.
    pub open spec fn wf(&self) -> bool {
        self.resource_allocator.wf()
    }

    /// A machine over `guest_memory` with fresh allocators, an empty bus and no work asked.
    pub fn new(guest_memory: GuestMemory) -> (r: Result<Self, vm_allocator::Error>)
        ensures
            r is Ok,
            r matches Ok(vm) ==> {
                &&& vm.wf()
                &&& vm.resource_allocator.fresh()
                &&& vm.guest_memory == guest_memory
                &&& vm.mmio_bus.ranges() == Map::<u64, (u64, u64)>::empty()
                &&& vm.actions@ == Seq::<HostAction>::empty()
            },
    {
        let resource_allocator = ResourceAllocator::new()?;
        Ok(Vm { guest_memory, resource_allocator, mmio_bus: Bus::new(), actions: Vec::new() })
    }

    /// Asks the host to wake the device at `addr` when the guest writes the number of one
    /// of its first `count` queues there, lowest queue first.
    pub fn register_ioevents(&mut self, addr: u64, count: usize)
        ensures
            final(self).actions@ == old(self).actions@ + ioevent_actions(addr, count as nat),
            final(self).guest_memory == old(self).guest_memory,
            final(self).resource_allocator == old(self).resource_allocator,
            final(self).mmio_bus == old(self).mmio_bus,
    {
        let mut q: usize = 0;
        while q < count
            invariant
                0 <= q <= count,
                self.actions@ == old(self).actions@ + ioevent_actions(addr, q as nat),
                self.guest_memory == old(self).guest_memory,
                self.resource_allocator == old(self).resource_allocator,
                self.mmio_bus == old(self).mmio_bus,
            decreases count - q,
        {
            self.actions.push(HostAction::RegisterIoEvent { addr, queue: q as u64 });
            proof {
                assert(old(self).actions@ + ioevent_actions(addr, (q + 1) as nat) =~= (old(
                    self,
                ).actions@ + ioevent_actions(addr, q as nat)).push(
                    HostAction::RegisterIoEvent { addr, queue: q as u64 },
                ));
            }
            q += 1;
        }
    }

    /// Takes `count` interrupt lines for the vectors of one device: the smallest lines for
    /// message signalled interrupts that are left, in rising order, or none at all if
    /// fewer are left.
    pub fn create_msix_group(&mut self, count: u16) -> (r: Result<
        MsiVectorGroup,
        vm_allocator::Error,
    >)
        requires
            old(self).wf(),
        ensures
            final(self).wf(),
            final(self).guest_memory == old(self).guest_memory,
            final(self).mmio_bus == old(self).mmio_bus,
            final(self).actions == old(self).actions,
            final(self).resource_allocator.gsi_legacy_allocator == old(
                self,
            ).resource_allocator.gsi_legacy_allocator,
            final(self).resource_allocator.mmio32_memory == old(
                self,
            ).resource_allocator.mmio32_memory,
            final(self).resource_allocator.mmio64_memory == old(
                self,
            ).resource_allocator.mmio64_memory,
            final(self).resource_allocator.system_memory == old(
                self,
            ).resource_allocator.system_memory,
            id_allocation(
                old(self).resource_allocator.gsi_msi_allocator,
                final(self).resource_allocator.gsi_msi_allocator,
                count as u32,
                match r {
                    Ok(group) => Ok(group.vectors),
                    Err(err) => Err(err),
                },
            ),
    {
        let vectors = self.resource_allocator.allocate_gsi_msi(count as u32)?;
        Ok(MsiVectorGroup { vectors })
    }

    /// Asks the host for `action`, after everything asked before.
    pub fn ask(&mut self, action: HostAction)
        ensures
            final(self).actions@ == old(self).actions@.push(action),
            final(self).guest_memory == old(self).guest_memory,
            final(self).resource_allocator == old(self).resource_allocator,
            final(self).mmio_bus == old(self).mmio_bus,
    {
        self.actions.push(action);
    }

    /// Asks the host to route the interrupt line `gsi` into the guest.
    pub fn register_irq(&mut self, gsi: u32)
        ensures
            final(self).actions@ == old(self).actions@.push(HostAction::RegisterIrq { gsi }),
            final(self).guest_memory == old(self).guest_memory,
            final(self).resource_allocator == old(self).resource_allocator,
            final(self).mmio_bus == old(self).mmio_bus,
    {
        self.actions.push(HostAction::RegisterIrq { gsi });
    }
}

} // verus!
