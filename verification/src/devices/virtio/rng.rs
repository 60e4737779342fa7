//! The entropy device.

use vstd::prelude::*;

use crate::devices::virtio::persist::{
    inactive, PersistError, VirtioBase, VirtioDeviceState, VirtioDeviceStateView,
};
use crate::devices::virtio::{MAX_QUEUE_SIZE, TYPE_RNG};

verus! {

/// Number of queues of an entropy device.
pub const RNG_NUM_QUEUES: usize = 1;

/// An entropy device.
#[derive(Debug)]
pub struct Entropy {
    /// Identifier of the device.
    pub id: String,
    /// Features, queues and activation.
    pub base: VirtioBase,
}

/// Saved state of an entropy device.
#[derive(Debug)]
pub struct EntropyState {
    /// Identifier of the device.
    pub id: String,
    /// Features, queues and activation.
    pub virtio_state: VirtioDeviceState,
}

/// A saved entropy state as a mathematical value.
pub struct EntropyStateView {
    pub id: Seq<char>,
    pub virtio_state: VirtioDeviceStateView,
}

impl DeepView for EntropyState {
    type V = EntropyStateView;

    open spec fn deep_view(&self) -> EntropyStateView {
        EntropyStateView { id: self.id@, virtio_state: self.virtio_state.deep_view() }
    }
}

impl Entropy {
    /// The state that saving this device gives.
    pub open spec fn saved(&self) -> EntropyStateView {
        EntropyStateView { id: self.id@, virtio_state: self.base.saved(TYPE_RNG) }
    }

    /// Saves the device.
    pub fn save(&self) -> (state: EntropyState)
        ensures
            state.deep_view() == self.saved(),
    {
        EntropyState {
            id: self.id.clone(),
            virtio_state: VirtioDeviceState::from_device(TYPE_RNG, &self.base),
        }
    }

    /// Rebuilds a device from `state`, inactive, if `state` is that of an entropy device.
    pub fn restore(state: &EntropyState) -> (r: Result<Self, PersistError>)
        ensures
            r is Ok <==> state.deep_view().virtio_state.fits(
                TYPE_RNG,
                RNG_NUM_QUEUES as nat,
                MAX_QUEUE_SIZE,
            ),
            r matches Ok(dev) ==> dev.saved() == (
                EntropyStateView {
                    virtio_state: inactive(state.deep_view().virtio_state),
                    ..state.deep_view()
                }
            ),
    {
        let base = state.virtio_state.restore_base(TYPE_RNG, RNG_NUM_QUEUES, MAX_QUEUE_SIZE)?;
        Ok(Entropy { id: state.id.clone(), base })
    }
}

} // verus!
