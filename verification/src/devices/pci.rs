//! The PCI segment of a machine: one bus, whose device slots are handed out once each.

use vstd::prelude::*;

verus! {

/// Number of device slots on the bus.
pub const NUM_DEVICE_IDS: usize = 32;

/// Why a device slot could not be had.
#[derive(Clone, Copy, Debug, PartialEq, Eq, Structural)]
pub enum PciRootError {
    /// Every slot is taken.
    NoPciDeviceSlotAvailable,
    /// There is no slot of this number.
    InvalidPciDeviceSlot(u32),
    /// The slot of this number is taken.
    AlreadyInUsePciDeviceSlot(u32),
}

/// The address of the function 0 of the device in slot `device` on bus 0 of `segment`.
pub open spec fn spec_bdf(segment: u16, device: u8) -> u32 {
    (segment * 0x1_0000 + device * 8) as u32
}

/// The device slot that the address `bdf` names.
pub open spec fn spec_bdf_device(bdf: u32) -> u8 {
    ((bdf / 8) % 32) as u8
}

/// The address of the function 0 of the device in slot `device` on bus 0 of `segment`.
pub fn bdf_new(segment: u16, device: u8) -> (bdf: u32)
    requires
        device < NUM_DEVICE_IDS,
    ensures
        bdf == spec_bdf(segment, device),
        spec_bdf_device(bdf) == device,
{
    let segment: u32 = segment as u32;
    let device: u32 = device as u32;
    proof {
        // the slot is below 32, so it fills the bits 3 to 7 and nothing above them
        assert(segment * 0x1_0000 <= 0xffff_0000 && device * 8 <= 248) by (nonlinear_arith)
            requires
                segment <= 0xffff,
                device < 32,
        ;
        assert((segment * 0x1_0000 + device * 8) / 8 == segment * 0x2000 + device);
        assert((segment * 0x2000 + device) % 32 == device) by (nonlinear_arith)
            requires
                device < 32,
        ;
    }
    segment * 0x1_0000 + device * 8
}

/// The device slot that the address `bdf` names.
pub fn bdf_device(bdf: u32) -> (device: u8)
    ensures
        device == spec_bdf_device(bdf),
        device < NUM_DEVICE_IDS,
{
    ((bdf / 8) % 32) as u8
}

/// The bus of a segment. Slot 0 belongs to the root of the bus.
#[derive(Debug)]
pub struct PciBus {
    /// Which slots are taken.
    pub device_ids: Vec<bool>,
}

impl PciBus {
    /// Whether the bus has its 32 slots, the first of them taken.
    pub open spec fn wf(&self) -> bool {
        self.device_ids.len() == NUM_DEVICE_IDS && self.device_ids[0]
    }

    /// Whether `slot` is the first free slot.
    pub open spec fn first_free(&self, slot: int) -> bool {
        &&& 0 <= slot < self.device_ids.len()
        &&& !self.device_ids[slot]
        &&& forall|j: int| 0 <= j < slot ==> #[trigger] self.device_ids[j]
    }

    /// Whether every slot is taken.
    pub open spec fn full(&self) -> bool {
        forall|j: int| 0 <= j < self.device_ids.len() ==> #[trigger] self.device_ids[j]
    }

    /// A bus on which only the root has a slot.
    pub fn new() -> (bus: Self)
        ensures
            bus.wf(),
            forall|j: int| 1 <= j < NUM_DEVICE_IDS ==> !#[trigger] bus.device_ids[j],
    {
        let mut device_ids: Vec<bool> = Vec::new();
        device_ids.push(true);
        let mut i: usize = 1;
        while i < NUM_DEVICE_IDS
            invariant
                1 <= i <= NUM_DEVICE_IDS,
                device_ids.len() == i,
                device_ids[0],
                forall|j: int| 1 <= j < i ==> !#[trigger] device_ids[j],
            decreases NUM_DEVICE_IDS - i,
        {
            device_ids.push(false);
            i += 1;
        }
        PciBus { device_ids }
    }

    /// Takes the first free slot.
    pub fn next_device_id(&mut self) -> (r: Result<u32, PciRootError>)
        requires
            old(self).wf(),
        ensures
            final(self).wf(),
            match r {
                Ok(slot) => {
                    &&& old(self).first_free(slot as int)
                    &&& final(self).device_ids@ == old(self).device_ids@.update(slot as int, true)
                },
                Err(err) => {
                    &&& err == PciRootError::NoPciDeviceSlotAvailable
                    &&& old(self).full()
                    &&& *final(self) == *old(self)
                },
            },
    {
        let mut i: usize = 0;
        while i < self.device_ids.len()
            invariant
                0 <= i <= self.device_ids.len(),
                *self == *old(self),
                self.wf(),
                forall|j: int| 0 <= j < i ==> #[trigger] self.device_ids[j],
            decreases self.device_ids.len() - i,
        {
            if !self.device_ids[i] {
                self.device_ids.set(i, true);
                return Ok(i as u32);
            }
            i += 1;
        }
        Err(PciRootError::NoPciDeviceSlotAvailable)
    }

    /// Takes the slot `id`, which must exist and be free.
    pub fn get_device_id(&mut self, id: u32) -> (r: Result<(), PciRootError>)
        requires
            old(self).wf(),
        ensures
            final(self).wf(),
            match r {
                Ok(()) => {
                    &&& id < NUM_DEVICE_IDS
                    &&& !old(self).device_ids[id as int]
                    &&& final(self).device_ids@ == old(self).device_ids@.update(id as int, true)
                },
                Err(PciRootError::InvalidPciDeviceSlot(slot)) => {
                    &&& slot == id
                    &&& id >= NUM_DEVICE_IDS
                    &&& *final(self) == *old(self)
                },
                Err(PciRootError::AlreadyInUsePciDeviceSlot(slot)) => {
                    &&& slot == id
                    &&& id < NUM_DEVICE_IDS
                    &&& old(self).device_ids[id as int]
                    &&& *final(self) == *old(self)
                },
                Err(PciRootError::NoPciDeviceSlotAvailable) => false,
            },
    {
        if id < 32 {
            if !self.device_ids[id as usize] {
                self.device_ids.set(id as usize, true);
                Ok(())
            } else {
                Err(PciRootError::AlreadyInUsePciDeviceSlot(id))
            }
        } else {
            Err(PciRootError::InvalidPciDeviceSlot(id))
        }
    }
}

/// A PCI segment: its number and its one bus.
#[derive(Debug)]
pub struct PciSegment {
    /// Number of the segment.
    pub id: u16,
    /// The bus.
    pub pci_bus: PciBus,
}

impl PciSegment {
    /// Whether the bus of the segment is well formed.
    pub open spec fn wf(&self) -> bool {
        self.pci_bus.wf()
    }

    /// The segment `id`, with no device on its bus.
    pub fn new(id: u16) -> (segment: Self)
        ensures
            segment.wf(),
            segment.id == id,
            forall|j: int| 1 <= j < NUM_DEVICE_IDS ==> !#[trigger] segment.pci_bus.device_ids[j],
    {
        PciSegment { id, pci_bus: PciBus::new() }
    }

    /// Takes the first free slot of the bus and gives the address of the device in it.
    pub fn next_device_bdf(&mut self) -> (r: Result<u32, PciRootError>)
        requires
            old(self).wf(),
        ensures
            final(self).wf(),
            final(self).id == old(self).id,
            match r {
                Ok(bdf) => {
                    &&& old(self).pci_bus.first_free(spec_bdf_device(bdf) as int)
                    &&& bdf == spec_bdf(old(self).id, spec_bdf_device(bdf))
                    &&& final(self).pci_bus.device_ids@ == old(self).pci_bus.device_ids@.update(
                        spec_bdf_device(bdf) as int,
                        true,
                    )
                },
                Err(err) => {
                    &&& err == PciRootError::NoPciDeviceSlotAvailable
                    &&& old(self).pci_bus.full()
                    &&& *final(self) == *old(self)
                },
            },
    {
        let slot = self.pci_bus.next_device_id()?;
        Ok(bdf_new(self.id, slot as u8))
    }
}

} // verus!
