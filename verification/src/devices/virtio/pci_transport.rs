//! The PCI transport: a device behind a function on the PCI bus, with a register window in
//! a memory BAR and one message signalled interrupt per queue plus one for its
//! configuration.

use vstd::prelude::*;

use crate::devices::virtio::device::VirtioDevice;
use crate::devices::virtio::queue::all_valid_in;
use crate::devices::virtio::ActivateError;
use crate::vstate::bus::range_valid;
use crate::vstate::memory::GuestMemory;
use crate::vstate::resources::{address_allocation, AllocPolicy, ResourceAllocator};
use crate::vstate::vm::{HostAction, Vm};

verus! {

/// Size of the BAR that holds the register window of a device.
pub const CAPABILITY_BAR_SIZE: u64 = 0x8_0000;

/// Offset in the BAR of the registers through which the guest notifies the queues.
pub const NOTIFICATION_BAR_OFFSET: u64 = 0x6000;

/// Distance between the notification registers of two queues.
pub const NOTIFY_OFF_MULTIPLIER: u64 = 4;

/// The interrupt lines of one device, in the order of its vectors. Vector 0 tells of
/// changes of the configuration; the others belong to the queues.
#[derive(Debug)]
pub struct MsiVectorGroup {
    /// Interrupt line of each vector.
    pub vectors: Vec<u32>,
}

/// What the guest has selected through the common configuration of a device.
#[derive(Clone, Copy, Debug, PartialEq, Eq, Structural)]
pub struct VirtioPciCommonConfigState {
    /// Status that the driver has written.
    pub driver_status: u8,
    /// How often the configuration has changed.
    pub config_generation: u8,
    /// Which half of the offered features the guest reads.
    pub device_feature_select: u32,
    /// Which half of the acknowledged features the guest writes.
    pub driver_feature_select: u32,
    /// Queue that the guest configures.
    pub queue_select: u16,
    /// Vector that tells of changes of the configuration.
    pub msix_config: u16,
}

/// What is saved of a PCI transport.
#[derive(Debug)]
pub struct VirtioPciDeviceState {
    /// Address of the device on the PCI bus.
    pub pci_device_bdf: u32,
    /// Whether the driver had activated the device.
    pub device_activated: bool,
    /// What the guest had selected.
    pub pci_dev_state: VirtioPciCommonConfigState,
    /// Interrupt line of each vector.
    pub msi_vector_group: Vec<u32>,
    /// First address of the BAR.
    pub bar_address: u64,
}

/// A saved PCI transport as a mathematical value.
pub struct VirtioPciDeviceStateView {
    pub pci_device_bdf: u32,
    pub device_activated: bool,
    pub pci_dev_state: VirtioPciCommonConfigState,
    pub msi_vector_group: Seq<u32>,
    pub bar_address: u64,
}

impl DeepView for VirtioPciDeviceState {
    type V = VirtioPciDeviceStateView;

    open spec fn deep_view(&self) -> VirtioPciDeviceStateView {
        VirtioPciDeviceStateView {
            pci_device_bdf: self.pci_device_bdf,
            device_activated: self.device_activated,
            pci_dev_state: self.pci_dev_state,
            msi_vector_group: self.msi_vector_group@,
            bar_address: self.bar_address,
        }
    }
}

/// A device behind its PCI function.
#[derive(Debug)]
pub struct VirtioPciDevice {
    /// Identifier of the device.
    pub id: String,
    /// The device.
    pub device: VirtioDevice,
    /// Address of the device on the PCI bus.
    pub pci_device_bdf: u32,
    /// The interrupt lines of the device.
    pub msix_vectors: MsiVectorGroup,
    /// First address of the BAR, once it is allocated.
    pub bar_address: u64,
    /// Whether the driver has activated the device.
    pub device_activated: bool,
    /// What the guest has selected.
    pub common_config: VirtioPciCommonConfigState,
}

/// The common configuration of a device that the guest has not touched.
pub open spec fn untouched_config() -> VirtioPciCommonConfigState {
    VirtioPciCommonConfigState {
        driver_status: 0,
        config_generation: 0,
        device_feature_select: 0,
        driver_feature_select: 0,
        queue_select: 0,
        msix_config: 0,
    }
}

/// The requests to wake the device whose BAR starts at `bar` for each of its first
/// `count` queues, lowest queue first.
pub open spec fn notification_actions(bar: u64, count: nat) -> Seq<HostAction> {
    Seq::new(
        count,
        |q: int|
            HostAction::RegisterIoEvent {
                addr: (bar + NOTIFICATION_BAR_OFFSET + q * NOTIFY_OFF_MULTIPLIER) as u64,
                queue: q as u64,
            },
    )
}

/// A copy of `vectors`.
fn copy_vectors(vectors: &Vec<u32>) -> (r: Vec<u32>)
    ensures
        r@ == vectors@,
{
    let mut r: Vec<u32> = Vec::new();
    let mut i: usize = 0;
    while i < vectors.len()
        invariant
            0 <= i <= vectors.len(),
            r@ == vectors@.take(i as int),
        decreases vectors.len() - i,
    {
        r.push(vectors[i]);
        proof {
            assert(vectors@.take(i + 1) == vectors@.take(i as int).push(vectors@[i as int]));
        }
        i += 1;
    }
    proof {
        assert(vectors@.take(vectors.len() as int) == vectors@);
    }
    r
}

impl MsiVectorGroup {
    /// The interrupt lines of the group, to be saved.
    pub fn save(&self) -> (state: Vec<u32>)
        ensures
            state@ == self.vectors@,
    {
        copy_vectors(&self.vectors)
    }

    /// The group of the saved interrupt lines: the same lines, none newly allocated.
    pub fn restore(state: &Vec<u32>) -> (group: Self)
        ensures
            group.vectors@ == state@,
    {
        MsiVectorGroup { vectors: copy_vectors(state) }
    }

    /// Number of vectors of the group.
    pub fn num_vectors(&self) -> (n: usize)
        ensures
            n == self.vectors.len(),
    {
        self.vectors.len()
    }
}

impl VirtioPciDevice {
    /// The state that saving this transport gives.
    pub open spec fn saved(&self) -> VirtioPciDeviceStateView {
        VirtioPciDeviceStateView {
            pci_device_bdf: self.pci_device_bdf,
            device_activated: self.device_activated,
            pci_dev_state: self.common_config,
            msi_vector_group: self.msix_vectors.vectors@,
            bar_address: self.bar_address,
        }
    }

    /// A transport around `device` at the address `pci_device_bdf`, with the interrupt
    /// lines `msix_vectors`, whose BAR is not allocated yet and which the guest has not
    /// touched.
    pub fn new(id: String, device: VirtioDevice, msix_vectors: MsiVectorGroup, pci_device_bdf: u32) -> (t:
        Self)
        ensures
            t == (VirtioPciDevice {
                id,
                device,
                pci_device_bdf,
                msix_vectors,
                bar_address: 0,
                device_activated: false,
                common_config: untouched_config(),
            }),
    {
        VirtioPciDevice {
            id,
            device,
            pci_device_bdf,
            msix_vectors,
            bar_address: 0,
            device_activated: false,
            common_config: VirtioPciCommonConfigState {
                driver_status: 0,
                config_generation: 0,
                device_feature_select: 0,
                driver_feature_select: 0,
                queue_select: 0,
                msix_config: 0,
            },
        }
    }

    /// The device behind the transport.
    pub fn virtio_device(&self) -> (d: &VirtioDevice)
        ensures
            *d == self.device,
    {
        &self.device
    }

    /// Takes the BAR of the device from the 64-bit window of `allocator`: a range of
    /// [`CAPABILITY_BAR_SIZE`] bytes, aligned to its size, at the lowest fitting place:
    /// see [`address_allocation`] for when there is one. Without such a range nothing
    /// changes.
    pub fn allocate_bars(&mut self, allocator: &mut ResourceAllocator) -> (r: Result<
        (),
        vm_allocator::Error,
    >)
        ensures
            old(allocator).wf() ==> final(allocator).wf(),
            final(allocator).gsi_legacy_allocator == old(allocator).gsi_legacy_allocator,
            final(allocator).gsi_msi_allocator == old(allocator).gsi_msi_allocator,
            final(allocator).mmio32_memory == old(allocator).mmio32_memory,
            final(allocator).system_memory == old(allocator).system_memory,
            match r {
                Ok(()) => {
                    &&& address_allocation(
                        old(allocator).mmio64_memory,
                        final(allocator).mmio64_memory,
                        CAPABILITY_BAR_SIZE,
                        CAPABILITY_BAR_SIZE,
                        AllocPolicy::FirstMatch,
                        Ok(final(self).bar_address),
                    )
                    &&& *final(self) == (VirtioPciDevice {
                        bar_address: final(self).bar_address,
                        ..*old(self)
                    })
                },
                Err(err) => {
                    &&& address_allocation(
                        old(allocator).mmio64_memory,
                        final(allocator).mmio64_memory,
                        CAPABILITY_BAR_SIZE,
                        CAPABILITY_BAR_SIZE,
                        AllocPolicy::FirstMatch,
                        Err(err),
                    )
                    &&& *final(self) == *old(self)
                },
            },
    {
        let addr = allocator.allocate_64bit_mmio_memory(
            CAPABILITY_BAR_SIZE,
            CAPABILITY_BAR_SIZE,
            AllocPolicy::FirstMatch,
        )?;
        self.bar_address = addr;
        Ok(())
    }

    /// Asks the host to wake the device when the guest notifies one of its queues.
    pub fn register_notification_ioevent(&self, vm: &mut Vm)
        requires
            range_valid(self.bar_address, CAPABILITY_BAR_SIZE),
            self.device.spec_base().queues.len() <= u16::MAX,
        ensures
            final(vm).actions@ == old(vm).actions@ + notification_actions(
                self.bar_address,
                self.device.spec_base().queues.len() as nat,
            ),
            final(vm).guest_memory == old(vm).guest_memory,
            final(vm).resource_allocator == old(vm).resource_allocator,
            final(vm).mmio_bus == old(vm).mmio_bus,
    {
        let count = self.device.num_queues();
        let base = self.bar_address + NOTIFICATION_BAR_OFFSET;
        let mut q: usize = 0;
        while q < count
            invariant
                0 <= q <= count,
                count <= u16::MAX,
                base == self.bar_address + NOTIFICATION_BAR_OFFSET,
                range_valid(self.bar_address, CAPABILITY_BAR_SIZE),
                vm.actions@ == old(vm).actions@ + notification_actions(self.bar_address, q as nat),
                vm.guest_memory == old(vm).guest_memory,
                vm.resource_allocator == old(vm).resource_allocator,
                vm.mmio_bus == old(vm).mmio_bus,
            decreases count - q,
        {
            let addr = base + (q as u64) * NOTIFY_OFF_MULTIPLIER;
            vm.actions.push(HostAction::RegisterIoEvent { addr, queue: q as u64 });
            proof {
                assert(old(vm).actions@ + notification_actions(self.bar_address, (q + 1) as nat)
                    =~= (old(vm).actions@ + notification_actions(self.bar_address, q as nat)).push(
                    HostAction::RegisterIoEvent { addr, queue: q as u64 },
                ));
            }
            q += 1;
        }
    }

    /// Saves the transport.
    pub fn state(&self) -> (state: VirtioPciDeviceState)
        ensures
            state.deep_view() == self.saved(),
    {
        VirtioPciDeviceState {
            pci_device_bdf: self.pci_device_bdf,
            device_activated: self.device_activated,
            pci_dev_state: self.common_config,
            msi_vector_group: self.msix_vectors.save(),
            bar_address: self.bar_address,
        }
    }

    /// Rebuilds a transport around `device`, which is not activated, from `state`, with the
    /// address, BAR and interrupt lines that were saved. The activation of a device that
    /// was activated is replayed in `mem`, which needs every queue to be servable there.
    pub fn new_from_state(
        id: String,
        mem: &GuestMemory,
        device: VirtioDevice,
        msi_vector_group: MsiVectorGroup,
        state: &VirtioPciDeviceState,
    ) -> (r: Result<Self, ActivateError>)
        requires
            !device.spec_is_activated(),
        ensures
            r is Ok <==> (state.device_activated ==> all_valid_in(device.spec_base().queues@, mem)),
            r matches Ok(t) ==> t == (VirtioPciDevice {
                id,
                device: if state.device_activated {
                    device.activated_form()
                } else {
                    device
                },
                pci_device_bdf: state.pci_device_bdf,
                msix_vectors: msi_vector_group,
                bar_address: state.bar_address,
                device_activated: state.device_activated,
                common_config: state.pci_dev_state,
            }),
    {
        let mut device = device;
        if state.device_activated {
            device.activate(mem)?;
        }
        Ok(
            VirtioPciDevice {
                id,
                device,
                pci_device_bdf: state.pci_device_bdf,
                msix_vectors: msi_vector_group,
                bar_address: state.bar_address,
                device_activated: state.device_activated,
                common_config: state.pci_dev_state,
            },
        )
    }
}

} // verus!
