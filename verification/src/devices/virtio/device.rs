//! The closed set of device kinds.

use vstd::prelude::*;

use crate::devices::virtio::balloon::Balloon;
use crate::devices::virtio::block::Block;
use crate::devices::virtio::net::Net;
use crate::devices::virtio::persist::VirtioBase;
use crate::devices::virtio::queue::all_valid_in;
use crate::devices::virtio::rng::Entropy;
use crate::devices::virtio::vsock::Vsock;
use crate::devices::virtio::{
    ActivateError, TYPE_BALLOON, TYPE_BLOCK, TYPE_NET, TYPE_RNG, TYPE_VSOCK,
};
use crate::vstate::memory::GuestMemory;

verus! {

/// A device of one of the five kinds.
#[derive(Debug)]
pub enum VirtioDevice {
    Balloon(Balloon),
    Block(Block),
    Net(Net),
    Vsock(Vsock),
    Entropy(Entropy),
}

impl VirtioDevice {
    /// Device type tag of the device.
    pub open spec fn spec_device_type(&self) -> u32 {
        match self {
            VirtioDevice::Balloon(_) => TYPE_BALLOON,
            VirtioDevice::Block(_) => TYPE_BLOCK,
            VirtioDevice::Net(_) => TYPE_NET,
            VirtioDevice::Vsock(_) => TYPE_VSOCK,
            VirtioDevice::Entropy(_) => TYPE_RNG,
        }
    }

    /// Features, queues and activation of the device.
    pub open spec fn spec_base(&self) -> VirtioBase {
        match self {
            VirtioDevice::Balloon(dev) => dev.base,
            VirtioDevice::Block(dev) => dev.base,
            VirtioDevice::Net(dev) => dev.base,
            VirtioDevice::Vsock(dev) => dev.base,
            VirtioDevice::Entropy(dev) => dev.base,
        }
    }

    /// Identifier of the device.
    pub open spec fn spec_id(&self) -> String {
        match self {
            VirtioDevice::Balloon(dev) => dev.id,
            VirtioDevice::Block(dev) => dev.id,
            VirtioDevice::Net(dev) => dev.id,
            VirtioDevice::Vsock(dev) => dev.id,
            VirtioDevice::Entropy(dev) => dev.id,
        }
    }

    /// Whether the driver has activated the device.
    pub open spec fn spec_is_activated(&self) -> bool {
        self.spec_base().activated
    }

    /// This device with the bookkeeping `base` in place of its own.
    pub open spec fn with_base(&self, base: VirtioBase) -> VirtioDevice {
        match self {
            VirtioDevice::Balloon(dev) => VirtioDevice::Balloon(Balloon { base, ..*dev }),
            VirtioDevice::Block(dev) => VirtioDevice::Block(Block { base, ..*dev }),
            VirtioDevice::Net(dev) => VirtioDevice::Net(Net { base, ..*dev }),
            VirtioDevice::Vsock(dev) => VirtioDevice::Vsock(Vsock { base, ..*dev }),
            VirtioDevice::Entropy(dev) => VirtioDevice::Entropy(Entropy { base, ..*dev }),
        }
    }

    /// This device once activated.
    pub open spec fn activated_form(&self) -> VirtioDevice {
        self.with_base(VirtioBase { activated: true, ..self.spec_base() })
    }

    /// Device type tag of the device.
    #[verifier::when_used_as_spec(spec_device_type)]
    pub fn device_type(&self) -> (t: u32)
        ensures
            t == self.spec_device_type(),
    {
        match self {
            VirtioDevice::Balloon(_) => TYPE_BALLOON,
            VirtioDevice::Block(_) => TYPE_BLOCK,
            VirtioDevice::Net(_) => TYPE_NET,
            VirtioDevice::Vsock(_) => TYPE_VSOCK,
            VirtioDevice::Entropy(_) => TYPE_RNG,
        }
    }

    /// Features, queues and activation of the device.
    pub fn base(&self) -> (b: &VirtioBase)
        ensures
            *b == self.spec_base(),
    {
        match self {
            VirtioDevice::Balloon(dev) => &dev.base,
            VirtioDevice::Block(dev) => &dev.base,
            VirtioDevice::Net(dev) => &dev.base,
            VirtioDevice::Vsock(dev) => &dev.base,
            VirtioDevice::Entropy(dev) => &dev.base,
        }
    }

    /// Identifier of the device.
    pub fn id(&self) -> (id: &String)
        ensures
            *id == self.spec_id(),
    {
        match self {
            VirtioDevice::Balloon(dev) => &dev.id,
            VirtioDevice::Block(dev) => &dev.id,
            VirtioDevice::Net(dev) => &dev.id,
            VirtioDevice::Vsock(dev) => &dev.id,
            VirtioDevice::Entropy(dev) => &dev.id,
        }
    }

    /// Whether the driver has activated the device.
    #[verifier::when_used_as_spec(spec_is_activated)]
    pub fn is_activated(&self) -> (r: bool)
        ensures
            r == self.spec_is_activated(),
    {
        self.base().activated
    }

    /// Number of queues of the device.
    pub fn num_queues(&self) -> (n: usize)
        ensures
            n == self.spec_base().queues.len(),
    {
        self.base().queues.len()
    }

    /// Activates the device in `mem`: possible exactly when every queue can be served
    /// there. A failed call changes nothing.
    pub fn activate(&mut self, mem: &GuestMemory) -> (r: Result<(), ActivateError>)
        ensures
            r is Ok <==> all_valid_in(old(self).spec_base().queues@, mem),
            r is Ok ==> *final(self) == old(self).activated_form(),
            r is Err ==> *final(self) == *old(self),
    {
        match self {
            VirtioDevice::Balloon(dev) => dev.base.activate(mem),
            VirtioDevice::Block(dev) => dev.base.activate(mem),
            VirtioDevice::Net(dev) => dev.base.activate(mem),
            VirtioDevice::Vsock(dev) => dev.base.activate(mem),
            VirtioDevice::Entropy(dev) => dev.base.activate(mem),
        }
    }

    /// Gives the device the bookkeeping `base` and hands its own out.
    pub fn replace_base(&mut self, base: VirtioBase) -> (replaced: VirtioBase)
        ensures
            replaced == old(self).spec_base(),
            *final(self) == old(self).with_base(base),
    {
        let mut base = base;
        match self {
            VirtioDevice::Balloon(dev) => core::mem::swap(&mut dev.base, &mut base),
            VirtioDevice::Block(dev) => core::mem::swap(&mut dev.base, &mut base),
            VirtioDevice::Net(dev) => core::mem::swap(&mut dev.base, &mut base),
            VirtioDevice::Vsock(dev) => core::mem::swap(&mut dev.base, &mut base),
            VirtioDevice::Entropy(dev) => core::mem::swap(&mut dev.base, &mut base),
        }
        base
    }
}

} // verus!
