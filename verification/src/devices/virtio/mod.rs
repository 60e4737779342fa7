//! Paravirtualised devices, as far as the device manager needs to know them.
//!
//! What a device does with its queues is not modelled here; what is kept is the
//! bookkeeping that attaching, saving and restoring a device read and write.

use vstd::prelude::*;

pub mod balloon;
pub mod block;
pub mod device;
pub mod mmio_registers;
pub mod pci_common_config;
pub mod net;
pub mod pci_transport;
pub mod persist;
pub mod queue;
pub mod rng;
pub mod transport;
pub mod vsock;

verus! {

/// Device type tag of a network device.
pub const TYPE_NET: u32 = 1;

/// Device type tag of a block device.
pub const TYPE_BLOCK: u32 = 2;

/// Device type tag of an entropy device.
pub const TYPE_RNG: u32 = 4;

/// Device type tag of a balloon device.
pub const TYPE_BALLOON: u32 = 5;

/// Device type tag of a vsock device.
pub const TYPE_VSOCK: u32 = 19;

/// Largest size that a queue of any device may have.
pub const MAX_QUEUE_SIZE: u16 = 256;

/// Why a device could not be activated.
#[derive(Clone, Copy, Debug, PartialEq, Eq, Structural)]
pub enum ActivateError {
    /// A queue is not ready or does not lie in guest memory.
    QueueMemoryError,
}

} // verus!
