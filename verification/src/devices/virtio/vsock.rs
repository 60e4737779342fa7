//! The vsock device.

use vstd::prelude::*;

use crate::devices::virtio::persist::{
    inactive, PersistError, VirtioBase, VirtioDeviceState, VirtioDeviceStateView,
};
use crate::devices::virtio::queue::Queue;
use crate::devices::virtio::{MAX_QUEUE_SIZE, TYPE_VSOCK};

verus! {

/// Number of queues of a vsock device.
pub const VSOCK_NUM_QUEUES: usize = 3;

/// Index of the queue on which the device tells the guest of events.
pub const EVQ_INDEX: usize = 2;

/// Errors of the vsock device.
#[derive(Clone, Copy, Debug, PartialEq, Eq, Structural)]
pub enum VsockError {
    /// The guest has queued no buffer for events.
    EmptyQueue,
    /// The saved state is not that of a vsock device.
    VirtioState(PersistError),
}

/// Errors of the host side of a vsock device.
#[derive(Clone, Copy, Debug, PartialEq, Eq, Structural)]
pub enum VsockUnixBackendError {
    /// There is no path at which the host side could listen.
    UnixBind,
}

/// The host side of a vsock device: a Unix socket.
#[derive(Debug)]
pub struct VsockUnixBackend {
    /// Path of the socket on the host.
    pub uds_path: String,
}

/// Saved state of the host side of a vsock device.
#[derive(Debug)]
pub struct VsockBackendState {
    /// Path of the socket on the host.
    pub uds_path: String,
}

/// What restoring the host side of a vsock device needs besides its state.
#[derive(Clone, Copy, Debug)]
pub struct VsockUdsConstructorArgs {
    /// Context id of the guest.
    pub cid: u64,
}

/// A vsock device.
#[derive(Debug)]
pub struct Vsock {
    /// Identifier of the device.
    pub id: String,
    /// Features, queues and activation.
    pub base: VirtioBase,
    /// Context id of the guest.
    pub cid: u64,
    /// The host side.
    pub backend: VsockUnixBackend,
    /// Buffers that the guest has queued for events and the device has not used.
    pub event_buffers: u16,
}

/// Saved state of the guest side of a vsock device.
#[derive(Debug)]
pub struct VsockFrontendState {
    /// Identifier of the device.
    pub id: String,
    /// Context id of the guest.
    pub cid: u64,
    /// Features, queues and activation.
    pub virtio_state: VirtioDeviceState,
}

/// Saved state of a vsock device.
#[derive(Debug)]
pub struct VsockState {
    /// The host side.
    pub backend: VsockBackendState,
    /// The guest side.
    pub frontend: VsockFrontendState,
}

/// A saved vsock state as a mathematical value.
pub struct VsockStateView {
    pub uds_path: Seq<char>,
    pub id: Seq<char>,
    pub cid: u64,
    pub virtio_state: VirtioDeviceStateView,
}

impl DeepView for VsockState {
    type V = VsockStateView;

    open spec fn deep_view(&self) -> VsockStateView {
        VsockStateView {
            uds_path: self.backend.uds_path@,
            id: self.frontend.id@,
            cid: self.frontend.cid,
            virtio_state: self.frontend.virtio_state.deep_view(),
        }
    }
}

/// What restoring a vsock device needs besides its state.
#[derive(Debug)]
pub struct VsockConstructorArgs {
    /// The host side, already restored.
    pub backend: VsockUnixBackend,
}

/// The queue `q` after the device has taken one buffer from it and handed it back used.
pub open spec fn queue_after_event(q: Queue) -> Queue {
    Queue {
        next_avail: if q.next_avail == u16::MAX {
            0
        } else {
            (q.next_avail + 1) as u16
        },
        next_used: if q.next_used == u16::MAX {
            0
        } else {
            (q.next_used + 1) as u16
        },
        ..q
    }
}

/// Whether `post` is `pre` after it has told the guest, with one of the queued event
/// buffers, that every connection is gone.
pub open spec fn reset_sent(pre: Vsock, post: Vsock) -> bool {
    &&& post.id == pre.id
    &&& post.cid == pre.cid
    &&& post.backend == pre.backend
    &&& post.event_buffers == pre.event_buffers - 1
    &&& post.base.avail_features == pre.base.avail_features
    &&& post.base.acked_features == pre.base.acked_features
    &&& post.base.activated == pre.base.activated
    &&& post.base.queues@ == pre.base.queues@.update(
        EVQ_INDEX as int,
        queue_after_event(pre.base.queues@[EVQ_INDEX as int]),
    )
}

impl VsockUnixBackend {
    /// Saves the host side.
    pub fn save(&self) -> (state: VsockBackendState)
        ensures
            state.uds_path@ == self.uds_path@,
    {
        VsockBackendState { uds_path: self.uds_path.clone() }
    }

    /// Rebuilds the host side, which needs a path to listen at.
    pub fn restore(args: VsockUdsConstructorArgs, state: &VsockBackendState) -> (r: Result<
        Self,
        VsockUnixBackendError,
    >)
        ensures
            r is Ok <==> state.uds_path@.len() > 0,
            r matches Ok(backend) ==> backend.uds_path@ == state.uds_path@,
    {
        if state.uds_path.as_str().unicode_len() == 0 {
            return Err(VsockUnixBackendError::UnixBind);
        }
        Ok(VsockUnixBackend { uds_path: state.uds_path.clone() })
    }
}

impl Vsock {
    /// The state that saving this device gives.
    pub open spec fn saved(&self) -> VsockStateView {
        VsockStateView {
            uds_path: self.backend.uds_path@,
            id: self.id@,
            cid: self.cid,
            virtio_state: self.base.saved(TYPE_VSOCK),
        }
    }

    /// The host side.
    pub fn backend(&self) -> (b: &VsockUnixBackend)
        ensures
            *b == self.backend,
    {
        &self.backend
    }

    /// Whether the device can tell the guest that its connections are gone.
    pub open spec fn can_send_event(&self) -> bool {
        self.event_buffers > 0 && EVQ_INDEX < self.base.queues.len()
    }

    /// Tells the guest that every connection is gone, by using one of the buffers that
    /// the guest has queued for events. Without such a buffer nothing changes.
    pub fn send_transport_reset_event(&mut self) -> (r: Result<(), VsockError>)
        ensures
            r is Ok <==> old(self).can_send_event(),
            r is Err ==> r == Err::<(), VsockError>(VsockError::EmptyQueue) && *final(self) == *old(
                self,
            ),
            r is Ok ==> reset_sent(*old(self), *final(self)),
    {
        if self.event_buffers == 0 || self.base.queues.len() <= EVQ_INDEX {
            return Err(VsockError::EmptyQueue);
        }
        let q = self.base.queues[EVQ_INDEX];
        let next = Queue {
            next_avail: q.next_avail.wrapping_add(1),
            next_used: q.next_used.wrapping_add(1),
            ..q
        };
        self.base.queues.set(EVQ_INDEX, next);
        self.event_buffers = self.event_buffers - 1;
        Ok(())
    }

    /// Saves the guest side.
    pub fn save(&self) -> (state: VsockFrontendState)
        ensures
            state.id@ == self.id@,
            state.cid == self.cid,
            state.virtio_state.deep_view() == self.base.saved(TYPE_VSOCK),
    {
        VsockFrontendState {
            id: self.id.clone(),
            cid: self.cid,
            virtio_state: VirtioDeviceState::from_device(TYPE_VSOCK, &self.base),
        }
    }

    /// Rebuilds a device from the saved guest side and a restored host side, inactive, if
    /// the state is that of a vsock device.
    pub fn restore(args: VsockConstructorArgs, state: &VsockFrontendState) -> (r: Result<
        Self,
        VsockError,
    >)
        ensures
            r is Ok <==> state.virtio_state.deep_view().fits(
                TYPE_VSOCK,
                VSOCK_NUM_QUEUES as nat,
                MAX_QUEUE_SIZE,
            ),
            r is Err ==> r == Err::<Self, VsockError>(
                VsockError::VirtioState(PersistError::InvalidInput),
            ),
            r matches Ok(dev) ==> {
                &&& dev.saved() == (VsockStateView {
                    uds_path: args.backend.uds_path@,
                    id: state.id@,
                    cid: state.cid,
                    virtio_state: inactive(state.virtio_state.deep_view()),
                })
                &&& dev.event_buffers == 0
            },
    {
        match state.virtio_state.restore_base(TYPE_VSOCK, VSOCK_NUM_QUEUES, MAX_QUEUE_SIZE) {
            Ok(base) => Ok(
                Vsock {
                    id: state.id.clone(),
                    base,
                    cid: state.cid,
                    backend: args.backend,
                    event_buffers: 0,
                },
            ),
            Err(err) => Err(VsockError::VirtioState(err)),
        }
    }
}

} // verus!
