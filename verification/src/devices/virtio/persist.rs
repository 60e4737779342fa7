//! The part of a device's saved state that every kind of device has.

use vstd::prelude::*;

use crate::devices::virtio::queue::{all_valid_in, copy_queues, queues_valid, Queue};
use crate::devices::virtio::ActivateError;
use crate::vstate::memory::GuestMemory;

verus! {

/// Why a saved device state was not accepted.
#[derive(Clone, Copy, Debug, PartialEq, Eq, Structural)]
pub enum PersistError {
    /// The state is of another kind of device, acknowledges features that were not
    /// offered, or has queues that the device cannot have.
    InvalidInput,
}

/// What is saved of every device: its kind, its features, its queues and whether it was
/// activated.
#[derive(Debug)]
pub struct VirtioDeviceState {
    /// Device type tag.
    pub device_type: u32,
    /// Features that the device offers.
    pub avail_features: u64,
    /// Features that the driver has acknowledged.
    pub acked_features: u64,
    /// The queues.
    pub queues: Vec<Queue>,
    /// Whether the driver had activated the device.
    pub activated: bool,
}

/// A saved device state as a mathematical value.
pub struct VirtioDeviceStateView {
    pub device_type: u32,
    pub avail_features: u64,
    pub acked_features: u64,
    pub queues: Seq<Queue>,
    pub activated: bool,
}

impl DeepView for VirtioDeviceState {
    type V = VirtioDeviceStateView;

    open spec fn deep_view(&self) -> VirtioDeviceStateView {
        VirtioDeviceStateView {
            device_type: self.device_type,
            avail_features: self.avail_features,
            acked_features: self.acked_features,
            queues: self.queues@,
            activated: self.activated,
        }
    }
}

/// The state `view` of a device that is not activated, and otherwise as `view` says.
pub open spec fn inactive(view: VirtioDeviceStateView) -> VirtioDeviceStateView {
    VirtioDeviceStateView { activated: false, ..view }
}

impl VirtioDeviceStateView {
    /// Whether a device of type `device_type` with `num_queues` queues of at most
    /// `max_size` entries can have this state.
    pub open spec fn fits(&self, device_type: u32, num_queues: nat, max_size: u16) -> bool {
        &&& self.device_type == device_type
        &&& self.acked_features & !self.avail_features == 0
        &&& self.queues.len() == num_queues
        &&& forall|i: int|
            0 <= i < self.queues.len() ==> (#[trigger] self.queues[i]).max_size == max_size
                && self.queues[i].size <= max_size
    }
}

/// The features, queues and activation of a device while it runs.
#[derive(Debug)]
pub struct VirtioBase {
    /// Features that the device offers.
    pub avail_features: u64,
    /// Features that the driver has acknowledged.
    pub acked_features: u64,
    /// The queues.
    pub queues: Vec<Queue>,
    /// Whether the driver has activated the device.
    pub activated: bool,
}

impl VirtioBase {
    /// Activates the device in `mem`: possible exactly when every queue can be served
    /// there. A failed call changes nothing.
    pub fn activate(&mut self, mem: &GuestMemory) -> (r: Result<(), ActivateError>)
        ensures
            r is Ok <==> all_valid_in(old(self).queues@, mem),
            r is Ok ==> *final(self) == (VirtioBase { activated: true, ..*old(self) }),
            r is Err ==> *final(self) == *old(self),
    {
        if !queues_valid(&self.queues, mem) {
            return Err(ActivateError::QueueMemoryError);
        }
        self.activated = true;
        Ok(())
    }

    /// The state that saving a device of type `device_type` with this bookkeeping gives.
    pub open spec fn saved(&self, device_type: u32) -> VirtioDeviceStateView {
        VirtioDeviceStateView {
            device_type,
            avail_features: self.avail_features,
            acked_features: self.acked_features,
            queues: self.queues@,
            activated: self.activated,
        }
    }
}

impl VirtioDeviceState {
    /// Saves the bookkeeping of a device of type `device_type`.
    pub fn from_device(device_type: u32, base: &VirtioBase) -> (state: Self)
        ensures
            state.deep_view() == base.saved(device_type),
    {
        VirtioDeviceState {
            device_type,
            avail_features: base.avail_features,
            acked_features: base.acked_features,
            queues: copy_queues(&base.queues),
            activated: base.activated,
        }
    }

    /// Rebuilds the bookkeeping of a device from this state, if a device of type
    /// `device_type` with `num_queues` queues of at most `max_size` entries can have it.
    /// The device comes back inactive: activation is replayed by whoever restores it.
    pub fn restore_base(&self, device_type: u32, num_queues: usize, max_size: u16) -> (r: Result<
        VirtioBase,
        PersistError,
    >)
        ensures
            r is Ok <==> self.deep_view().fits(device_type, num_queues as nat, max_size),
            r matches Ok(base) ==> base.saved(device_type) == inactive(self.deep_view()),
    {
        if self.device_type != device_type || self.acked_features & !self.avail_features != 0
            || self.queues.len() != num_queues {
            return Err(PersistError::InvalidInput);
        }
        let mut i: usize = 0;
        while i < self.queues.len()
            invariant
                0 <= i <= self.queues.len(),
                forall|j: int|
                    0 <= j < i ==> (#[trigger] self.queues[j]).max_size == max_size
                        && self.queues[j].size <= max_size,
            decreases self.queues.len() - i,
        {
            if self.queues[i].max_size != max_size || self.queues[i].size > max_size {
                return Err(PersistError::InvalidInput);
            }
            i += 1;
        }
        Ok(
            VirtioBase {
                avail_features: self.avail_features,
                acked_features: self.acked_features,
                queues: copy_queues(&self.queues),
                activated: false,
            },
        )
    }
}

} // verus!
