//! The generation-ID device: 16 random bytes in guest memory that change whenever the
//! machine starts a new life, and an interrupt that tells the guest so.

use vstd::prelude::*;

use crate::devices::acpi::aml::{shared_memory_aml, AcpiObject, SharedMemoryAml};
use crate::vstate::resources::{
    address_allocated, address_allocation, address_fits, address_free, id_allocated, id_run_free,
    AllocPolicy, ResourceAllocator,
};
use crate::vstate::vm::{HostAction, Vm};

verus! {

#[verifier::external_type_specification]
#[verifier::external_body]
pub struct ExUnspecified(aws_lc_rs::error::Unspecified);

/// Bytes of guest memory that the device uses.
pub const VMGENID_MEM_SIZE: u64 = 16;

/// Why the device could not be made or used.
#[derive(Debug)]
pub enum VmGenIdError {
    /// No interrupt line is left.
    AllocateGsi(vm_allocator::Error),
    /// No guest memory is left for the generation ID.
    AllocateMemory(vm_allocator::Error),
    /// The generation ID does not lie in guest memory.
    WriteGuestMemory,
    /// No random generation ID could be had.
    Random(aws_lc_rs::error::Unspecified),
}

/// The generation-ID device.
#[derive(Clone, Copy, Debug, PartialEq, Eq, Structural)]
pub struct VmGenId {
    /// The generation ID of this life of the machine.
    pub gen_id: u128,
    /// Guest-physical address of the generation ID.
    pub guest_address: u64,
    /// Interrupt line that tells the guest of a new generation ID.
    pub gsi: u32,
}

/// What is saved of the device: its resources, not its generation ID.
#[derive(Clone, Copy, Debug, PartialEq, Eq, Structural)]
pub struct VMGenIDState {
    /// Interrupt line of the device.
    pub gsi: u32,
    /// Guest-physical address of the generation ID.
    pub addr: u64,
}

/// `aws_lc_rs::rand::fill` on 16 bytes: the bytes are random, so nothing is said of them.
#[verifier::external_body]
fn random_bytes() -> (r: Result<[u8; 16], aws_lc_rs::error::Unspecified>) {
    let mut bytes = [0u8; 16];
    aws_lc_rs::rand::fill(&mut bytes).map(|()| bytes)
}

/// What taking the resources of the device does to the allocators: `device` has the
/// smallest free legacy interrupt line and 16 bytes of the memory for platform devices,
/// aligned to 8 bytes, from the highest fitting place.
pub open spec fn vmgenid_resources_taken(
    pre: ResourceAllocator,
    post: ResourceAllocator,
    device: VmGenId,
) -> bool {
    &&& id_run_free(pre.gsi_legacy_allocator, device.gsi as int, 1)
    &&& id_allocated(post.gsi_legacy_allocator) == id_allocated(pre.gsi_legacy_allocator).insert(
        device.gsi,
    )
    &&& address_allocation(
        pre.system_memory,
        post.system_memory,
        VMGENID_MEM_SIZE,
        8,
        AllocPolicy::LastMatch,
        Ok(device.guest_address),
    )
    &&& post.gsi_msi_allocator == pre.gsi_msi_allocator
    &&& post.mmio32_memory == pre.mmio32_memory
    &&& post.mmio64_memory == pre.mmio64_memory
    &&& post.wf()
}

/// Whether `post` is `pre` after the smallest free legacy interrupt line, `gsi`, has been
/// taken and no memory, because the memory for the generation ID does not fit.
pub open spec fn vmgenid_line_taken(pre: ResourceAllocator, post: ResourceAllocator, gsi: u32) -> bool {
    &&& id_run_free(pre.gsi_legacy_allocator, gsi as int, 1)
    &&& id_allocated(post.gsi_legacy_allocator) == id_allocated(pre.gsi_legacy_allocator).insert(
        gsi,
    )
    &&& !address_fits(pre.system_memory, VMGENID_MEM_SIZE, 8, AllocPolicy::LastMatch)
    &&& address_allocated(post.system_memory) == address_allocated(pre.system_memory)
    &&& address_free(post.system_memory) == address_free(pre.system_memory)
    &&& post.gsi_msi_allocator == pre.gsi_msi_allocator
    &&& post.mmio32_memory == pre.mmio32_memory
    &&& post.mmio64_memory == pre.mmio64_memory
    &&& post.wf()
}

/// What a failed attempt to make the device leaves of the allocators, for each failure.
/// What was taken before the step that failed stays taken:
/// - without a free interrupt line nothing is taken;
/// - without memory, which is when the request for it does not fit, the interrupt line is
///   taken;
/// - without a random generation ID the interrupt line and the memory are taken.
pub open spec fn vmgenid_failed(pre: ResourceAllocator, post: ResourceAllocator, err: VmGenIdError) -> bool {
    match err {
        VmGenIdError::AllocateGsi(_) => {
            &&& !(exists|first: int| id_run_free(pre.gsi_legacy_allocator, first, 1))
            &&& id_allocated(post.gsi_legacy_allocator) == id_allocated(pre.gsi_legacy_allocator)
            &&& post.system_memory == pre.system_memory
            &&& post.gsi_msi_allocator == pre.gsi_msi_allocator
            &&& post.mmio32_memory == pre.mmio32_memory
            &&& post.mmio64_memory == pre.mmio64_memory
            &&& post.wf()
        },
        VmGenIdError::AllocateMemory(_) => exists|gsi: u32| vmgenid_line_taken(pre, post, gsi),
        VmGenIdError::Random(_) => exists|device: VmGenId|
            vmgenid_resources_taken(pre, post, device),
        VmGenIdError::WriteGuestMemory => false,
    }
}

impl VmGenId {
    /// A device with the given generation ID and resources.
    pub fn with_gen_id(guest_address: u64, gsi: u32, gen_id: u128) -> (device: Self)
        ensures
            device == (VmGenId { gen_id, guest_address, gsi }),
    {
        VmGenId { gen_id, guest_address, gsi }
    }

    /// The generation ID that drawn bytes give, least significant byte first. A draw that
    /// has failed gives no generation ID.
    pub fn genid_of(drawn: Result<[u8; 16], aws_lc_rs::error::Unspecified>) -> (r: Result<
        u128,
        VmGenIdError,
    >)
        ensures
            match drawn {
                Ok(bytes) => r == Ok::<u128, VmGenIdError>(
                    vstd::bytes::spec_u128_from_le_bytes(bytes@),
                ),
                Err(err) => r == Err::<u128, VmGenIdError>(VmGenIdError::Random(err)),
            },
    {
        match drawn {
            Ok(bytes) => Ok(vstd::bytes::u128_from_le_bytes(bytes.as_slice())),
            Err(err) => Err(VmGenIdError::Random(err)),
        }
    }

    /// A random generation ID: 16 random bytes as [`Self::genid_of`] reads them.
    pub fn make_genid() -> (r: Result<u128, VmGenIdError>)
        ensures
            r matches Err(err) ==> err is Random,
    {
        Self::genid_of(random_bytes())
    }

    /// A device with the given resources and a random generation ID.
    pub fn from_parts(guest_address: u64, gsi: u32) -> (r: Result<Self, VmGenIdError>)
        ensures
            match r {
                Ok(device) => device.guest_address == guest_address && device.gsi == gsi,
                Err(err) => err is Random,
            },
    {
        let gen_id = Self::make_genid()?;
        Ok(Self::with_gen_id(guest_address, gsi, gen_id))
    }

    /// A new device: takes the smallest free legacy interrupt line and 16 bytes of the
    /// memory for platform devices, and draws a generation ID.
    ///
    /// Without a free interrupt line nothing is taken. What was taken stays taken if a
    /// later step fails.
    pub fn new(resource_allocator: &mut ResourceAllocator) -> (r: Result<Self, VmGenIdError>)
        requires
            old(resource_allocator).wf(),
        ensures
            final(resource_allocator).wf(),
            match r {
                Ok(device) => vmgenid_resources_taken(
                    *old(resource_allocator),
                    *final(resource_allocator),
                    device,
                ),
                Err(err) => vmgenid_failed(*old(resource_allocator), *final(resource_allocator), err),
            },
            !(exists|first: int|
                id_run_free(old(resource_allocator).gsi_legacy_allocator, first, 1)) ==> r is Err,
    {
        let gsi = match resource_allocator.allocate_gsi_legacy(1) {
            Ok(gsis) => {
                proof {
                    assert(id_allocated(resource_allocator.gsi_legacy_allocator) =~= id_allocated(
                        old(resource_allocator).gsi_legacy_allocator,
                    ).insert(gsis[0]));
                }
                gsis[0]
            },
            Err(err) => {
                return Err(VmGenIdError::AllocateGsi(err));
            },
        };
        // The generation ID has to lie in a buffer that is aligned to 8 bytes.
        let addr = match resource_allocator.allocate_system_memory(
            VMGENID_MEM_SIZE,
            8,
            AllocPolicy::LastMatch,
        ) {
            Ok(addr) => addr,
            Err(err) => {
                proof {
                    assert(vmgenid_line_taken(*old(resource_allocator), *resource_allocator, gsi));
                }
                return Err(VmGenIdError::AllocateMemory(err));
            },
        };
        proof {
            assert(vmgenid_resources_taken(
                *old(resource_allocator),
                *resource_allocator,
                VmGenId { gen_id: 0, guest_address: addr, gsi },
            ));
        }
        Self::from_parts(addr, gsi)
    }

    /// Asks the host to raise the interrupt of the device once, so that the guest looks at
    /// the generation ID.
    pub fn do_post_restore(&self, vm: &mut Vm)
        ensures
            final(vm).actions@ == old(vm).actions@.push(
                HostAction::TriggerInterrupt { gsi: self.gsi },
            ),
            final(vm).guest_memory == old(vm).guest_memory,
            final(vm).resource_allocator == old(vm).resource_allocator,
            final(vm).mmio_bus == old(vm).mmio_bus,
    {
        vm.ask(HostAction::TriggerInterrupt { gsi: self.gsi });
    }

    /// Asks the host to write the generation ID into guest memory, which must hold its 16
    /// bytes.
    pub fn activate(&self, vm: &mut Vm) -> (r: Result<(), VmGenIdError>)
        ensures
            final(vm).guest_memory == old(vm).guest_memory,
            final(vm).resource_allocator == old(vm).resource_allocator,
            final(vm).mmio_bus == old(vm).mmio_bus,
            match r {
                Ok(()) => {
                    &&& old(vm).guest_memory.contains_range(self.guest_address, VMGENID_MEM_SIZE)
                    &&& final(vm).actions@ == old(vm).actions@.push(
                        HostAction::WriteGenerationId {
                            addr: self.guest_address,
                            gen_id: self.gen_id,
                        },
                    )
                },
                Err(err) => {
                    &&& err is WriteGuestMemory
                    &&& !old(vm).guest_memory.contains_range(self.guest_address, VMGENID_MEM_SIZE)
                    &&& final(vm).actions@ == old(vm).actions@
                },
            },
    {
        if !vm.guest_memory.check_range(self.guest_address, VMGENID_MEM_SIZE) {
            return Err(VmGenIdError::WriteGuestMemory);
        }
        vm.ask(HostAction::WriteGenerationId { addr: self.guest_address, gen_id: self.gen_id });
        Ok(())
    }

    /// Starts a new life with the generation ID `gen_id`: asks the host to write it into
    /// guest memory and then to raise the interrupt of the device, once.
    pub fn post_restore_with(&mut self, vm: &mut Vm, gen_id: u128) -> (r: Result<(), VmGenIdError>)
        ensures
            final(vm).guest_memory == old(vm).guest_memory,
            final(vm).resource_allocator == old(vm).resource_allocator,
            final(vm).mmio_bus == old(vm).mmio_bus,
            match r {
                Ok(()) => {
                    &&& old(vm).guest_memory.contains_range(
                        old(self).guest_address,
                        VMGENID_MEM_SIZE,
                    )
                    &&& *final(self) == (VmGenId { gen_id, ..*old(self) })
                    &&& final(vm).actions@ == old(vm).actions@.push(
                        HostAction::WriteGenerationId { addr: old(self).guest_address, gen_id },
                    ).push(HostAction::TriggerInterrupt { gsi: old(self).gsi })
                },
                Err(err) => {
                    &&& err is WriteGuestMemory
                    &&& !old(vm).guest_memory.contains_range(
                        old(self).guest_address,
                        VMGENID_MEM_SIZE,
                    )
                    &&& *final(self) == *old(self)
                    &&& final(vm).actions@ == old(vm).actions@
                },
            },
    {
        let next = VmGenId { gen_id, guest_address: self.guest_address, gsi: self.gsi };
        next.activate(vm)?;
        next.do_post_restore(vm);
        *self = next;
        Ok(())
    }

    /// Starts a new life with a random generation ID: see [`Self::post_restore_with`]. If
    /// no random generation ID can be had, or the generation ID does not lie in guest
    /// memory, nothing changes.
    pub fn post_restore(&mut self, vm: &mut Vm) -> (r: Result<(), VmGenIdError>)
        ensures
            final(vm).guest_memory == old(vm).guest_memory,
            final(vm).resource_allocator == old(vm).resource_allocator,
            final(vm).mmio_bus == old(vm).mmio_bus,
            match r {
                Ok(()) => {
                    &&& final(self).guest_address == old(self).guest_address
                    &&& final(self).gsi == old(self).gsi
                    &&& final(vm).actions@ == old(vm).actions@.push(
                        HostAction::WriteGenerationId {
                            addr: old(self).guest_address,
                            gen_id: final(self).gen_id,
                        },
                    ).push(HostAction::TriggerInterrupt { gsi: old(self).gsi })
                },
                Err(err) => {
                    &&& *final(self) == *old(self)
                    &&& final(vm).actions@ == old(vm).actions@
                    &&& err is Random || (err is WriteGuestMemory
                        && !old(vm).guest_memory.contains_range(
                        old(self).guest_address,
                        VMGENID_MEM_SIZE,
                    ))
                },
            },
            !old(vm).guest_memory.contains_range(old(self).guest_address, VMGENID_MEM_SIZE)
                ==> r is Err,
    {
        let gen_id = Self::make_genid()?;
        self.post_restore_with(vm, gen_id)
    }

    /// Saves the resources of the device.
    pub fn save(&self) -> (state: VMGenIDState)
        ensures
            state == (VMGenIDState { gsi: self.gsi, addr: self.guest_address }),
    {
        VMGenIDState { gsi: self.gsi, addr: self.guest_address }
    }

    /// Rebuilds the device with the resources of `state`, none newly allocated, and a
    /// random generation ID. The guest sees nothing of it.
    pub fn restore(state: &VMGenIDState) -> (r: Result<Self, VmGenIdError>)
        ensures
            match r {
                Ok(device) => device.guest_address == state.addr && device.gsi == state.gsi,
                Err(err) => err is Random,
            },
    {
        Self::from_parts(state.addr, state.gsi)
    }

    /// What the firmware description says of the device.
    pub fn aml(&self) -> (aml: SharedMemoryAml)
        ensures
            aml.object == AcpiObject::VmGenId,
            aml.addr_high * 0x1_0000_0000 + aml.addr_low == self.guest_address,
    {
        shared_memory_aml(AcpiObject::VmGenId, self.guest_address)
    }
}

} // verus!
