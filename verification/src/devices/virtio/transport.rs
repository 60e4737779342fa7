//! The memory-mapped transport: what the guest has selected through the register window of
//! a device, kept beside the device itself.

use vstd::prelude::*;

use crate::devices::virtio::device::VirtioDevice;

verus! {

/// Offset of the register through which the guest notifies a queue.
pub const NOTIFY_REG_OFFSET: u64 = 0x50;

/// What is saved of a memory-mapped transport.
#[derive(Clone, Copy, Debug, PartialEq, Eq, Structural)]
pub struct MmioTransportState {
    /// Which half of the offered features the guest reads.
    pub features_select: u32,
    /// Which half of the acknowledged features the guest writes.
    pub acked_features_select: u32,
    /// Queue that the guest configures.
    pub queue_select: u32,
    /// Status that the driver has written.
    pub device_status: u32,
    /// How often the configuration has changed.
    pub config_generation: u32,
    /// Interrupts that were raised and not yet acknowledged.
    pub interrupt_status: u32,
}

/// A device behind its memory-mapped register window.
#[derive(Debug)]
pub struct MmioTransport {
    /// The device.
    pub device: VirtioDevice,
    /// Whether a process outside this one serves the device.
    pub is_vhost_user: bool,
    /// What the guest has selected and the interrupts that wait for it.
    pub state: MmioTransportState,
}

/// What restoring a transport needs besides its state.
#[derive(Debug)]
pub struct MmioTransportConstructorArgs {
    /// The device, already restored.
    pub device: VirtioDevice,
    /// Whether a process outside this one serves the device.
    pub is_vhost_user: bool,
}

impl MmioTransport {
    /// A transport around `device` on which the guest has selected nothing yet.
    pub open spec fn spec_new(device: VirtioDevice, is_vhost_user: bool) -> MmioTransport {
        MmioTransport {
            device,
            is_vhost_user,
            state: MmioTransportState {
                features_select: 0,
                acked_features_select: 0,
                queue_select: 0,
                device_status: 0,
                config_generation: 0,
                interrupt_status: 0,
            },
        }
    }

    /// A transport around `device` on which the guest has selected nothing yet.
    pub fn new(device: VirtioDevice, is_vhost_user: bool) -> (t: Self)
        ensures
            t == Self::spec_new(device, is_vhost_user),
    {
        MmioTransport {
            device,
            is_vhost_user,
            state: MmioTransportState {
                features_select: 0,
                acked_features_select: 0,
                queue_select: 0,
                device_status: 0,
                config_generation: 0,
                interrupt_status: 0,
            },
        }
    }

    /// The device behind the transport.
    pub fn device(&self) -> (d: &VirtioDevice)
        ensures
            *d == self.device,
    {
        &self.device
    }

    /// Saves the transport.
    pub fn save(&self) -> (state: MmioTransportState)
        ensures
            state == self.state,
    {
        self.state
    }

    /// Rebuilds a transport around the device of `args` from `state`.
    pub fn restore(args: MmioTransportConstructorArgs, state: &MmioTransportState) -> (t: Self)
        ensures
            t.device == args.device,
            t.is_vhost_user == args.is_vhost_user,
            t.state == *state,
    {
        MmioTransport { device: args.device, is_vhost_user: args.is_vhost_user, state: *state }
    }
}

} // verus!
