//! The block device.

use vstd::prelude::*;

use crate::devices::virtio::persist::{
    inactive, PersistError, VirtioBase, VirtioDeviceState, VirtioDeviceStateView,
};
use crate::devices::virtio::{MAX_QUEUE_SIZE, TYPE_BLOCK};

verus! {

/// Number of queues of a block device.
pub const BLOCK_NUM_QUEUES: usize = 1;

/// A block device. One that is served by a disk engine outside this process has
/// `vhost_user` set: its state lives there and cannot be saved here.
#[derive(Debug)]
pub struct Block {
    /// Identifier of the device.
    pub id: String,
    /// Features, queues and activation.
    pub base: VirtioBase,
    /// Whether a disk engine outside this process serves the device.
    pub vhost_user: bool,
    /// Requests that the device has taken and not yet completed.
    pub pending_ops: u32,
}

/// Saved state of a block device.
#[derive(Debug)]
pub struct BlockState {
    /// Identifier of the device.
    pub id: String,
    /// Features, queues and activation.
    pub virtio_state: VirtioDeviceState,
}

/// A saved block state as a mathematical value.
pub struct BlockStateView {
    pub id: Seq<char>,
    pub virtio_state: VirtioDeviceStateView,
}

impl DeepView for BlockState {
    type V = BlockStateView;

    open spec fn deep_view(&self) -> BlockStateView {
        BlockStateView { id: self.id@, virtio_state: self.virtio_state.deep_view() }
    }
}

impl BlockState {
    /// Whether the device was activated when it was saved.
    pub fn is_activated(&self) -> (r: bool)
        ensures
            r == self.virtio_state.activated,
    {
        self.virtio_state.activated
    }
}

impl Block {
    /// The state that saving this device gives.
    pub open spec fn saved(&self) -> BlockStateView {
        BlockStateView { id: self.id@, virtio_state: self.base.saved(TYPE_BLOCK) }
    }

    /// Whether a disk engine outside this process serves the device.
    pub fn is_vhost_user(&self) -> (r: bool)
        ensures
            r == self.vhost_user,
    {
        self.vhost_user
    }

    /// Completes what the device has taken, so that nothing is in flight when it is saved.
    pub fn prepare_save(&mut self)
        ensures
            *final(self) == (Block { pending_ops: 0, ..*old(self) }),
    {
        self.pending_ops = 0;
    }

    /// Saves the device.
    pub fn save(&self) -> (state: BlockState)
        ensures
            state.deep_view() == self.saved(),
    {
        BlockState {
            id: self.id.clone(),
            virtio_state: VirtioDeviceState::from_device(TYPE_BLOCK, &self.base),
        }
    }

    /// Rebuilds a device from `state`, inactive and with nothing in flight, if `state` is
    /// that of a block device.
    pub fn restore(state: &BlockState) -> (r: Result<Self, PersistError>)
        ensures
            r is Ok <==> state.deep_view().virtio_state.fits(
                TYPE_BLOCK,
                BLOCK_NUM_QUEUES as nat,
                MAX_QUEUE_SIZE,
            ),
            r matches Ok(dev) ==> {
                &&& dev.saved() == (
                    BlockStateView {
                        virtio_state: inactive(state.deep_view().virtio_state),
                        ..state.deep_view()
                    }
                )
                &&& !dev.vhost_user
                &&& dev.pending_ops == 0
            },
    {
        let base = state.virtio_state.restore_base(TYPE_BLOCK, BLOCK_NUM_QUEUES, MAX_QUEUE_SIZE)?;
        Ok(Block { id: state.id.clone(), base, vhost_user: false, pending_ops: 0 })
    }
}

} // verus!
