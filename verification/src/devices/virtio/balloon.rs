//! The balloon device.

use vstd::prelude::*;

use crate::devices::virtio::persist::{
    inactive, PersistError, VirtioBase, VirtioDeviceState, VirtioDeviceStateView,
};
use crate::devices::virtio::{MAX_QUEUE_SIZE, TYPE_BALLOON};

verus! {

/// Number of queues of a balloon device.
pub const BALLOON_NUM_QUEUES: usize = 3;

/// A balloon device.
#[derive(Debug)]
pub struct Balloon {
    /// Identifier of the device.
    pub id: String,
    /// Features, queues and activation.
    pub base: VirtioBase,
    /// Target size of the balloon.
    pub amount_mib: u32,
}

/// Saved state of a balloon device.
#[derive(Debug)]
pub struct BalloonState {
    /// Identifier of the device.
    pub id: String,
    /// Features, queues and activation.
    pub virtio_state: VirtioDeviceState,
    /// Target size of the balloon.
    pub amount_mib: u32,
}

/// A saved balloon state as a mathematical value.
pub struct BalloonStateView {
    pub id: Seq<char>,
    pub virtio_state: VirtioDeviceStateView,
    pub amount_mib: u32,
}

impl DeepView for BalloonState {
    type V = BalloonStateView;

    open spec fn deep_view(&self) -> BalloonStateView {
        BalloonStateView {
            id: self.id@,
            virtio_state: self.virtio_state.deep_view(),
            amount_mib: self.amount_mib,
        }
    }
}

/// What restoring a balloon device needs besides its state.
#[derive(Clone, Copy, Debug)]
pub struct BalloonConstructorArgs {
    /// Whether the state was read from a file.
    pub restored_from_file: bool,
}

impl Balloon {
    /// The state that saving this device gives.
    pub open spec fn saved(&self) -> BalloonStateView {
        BalloonStateView {
            id: self.id@,
            virtio_state: self.base.saved(TYPE_BALLOON),
            amount_mib: self.amount_mib,
        }
    }

    /// Saves the device.
    pub fn save(&self) -> (state: BalloonState)
        ensures
            state.deep_view() == self.saved(),
    {
        BalloonState {
            id: self.id.clone(),
            virtio_state: VirtioDeviceState::from_device(TYPE_BALLOON, &self.base),
            amount_mib: self.amount_mib,
        }
    }

    /// Rebuilds a device from `state`, inactive, if `state` is that of a balloon device.
    pub fn restore(args: BalloonConstructorArgs, state: &BalloonState) -> (r: Result<
        Self,
        PersistError,
    >)
        ensures
            r is Ok <==> state.deep_view().virtio_state.fits(
                TYPE_BALLOON,
                BALLOON_NUM_QUEUES as nat,
                MAX_QUEUE_SIZE,
            ),
            r matches Ok(dev) ==> dev.saved() == (
                BalloonStateView {
                    virtio_state: inactive(state.deep_view().virtio_state),
                    ..state.deep_view()
                }
            ),
    {
        let base = state.virtio_state.restore_base(
            TYPE_BALLOON,
            BALLOON_NUM_QUEUES,
            MAX_QUEUE_SIZE,
        )?;
        Ok(Balloon { id: state.id.clone(), base, amount_mib: state.amount_mib })
    }
}

} // verus!
