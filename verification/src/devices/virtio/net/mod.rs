//! The network device.

use vstd::prelude::*;

use crate::devices::virtio::persist::{
    inactive, PersistError, VirtioBase, VirtioDeviceState, VirtioDeviceStateView,
};
use crate::devices::virtio::queue::Queue;
use crate::devices::virtio::{MAX_QUEUE_SIZE, TYPE_NET};
use crate::mmds::{Mmds, MmdsNetworkStack};

pub mod test_utils;

verus! {

/// Number of queues of a network device.
pub const NET_NUM_QUEUES: usize = 2;

/// Index of the queue on which the guest receives.
pub const RX_INDEX: usize = 0;

/// Index of the queue on which the guest sends.
pub const TX_INDEX: usize = 1;

/// A hardware address of a network interface.
#[derive(Clone, Copy, Debug, PartialEq, Eq)]
pub struct MacAddr {
    /// The six bytes, in the order in which they are written.
    pub bytes: (u8, u8, u8, u8, u8, u8),
}

/// The part of the device's configuration that the guest can read.
#[derive(Clone, Copy, Debug, PartialEq, Eq)]
pub struct ConfigSpace {
    /// Hardware address that the guest sees.
    pub guest_mac: MacAddr,
}

/// Errors of saving and restoring a network device.
#[derive(Clone, Copy, Debug, PartialEq, Eq, Structural)]
pub enum NetPersistError {
    /// The saved state is not that of a network device.
    VirtioState(PersistError),
    /// The device exposed the metadata service, and the machine has none.
    NoMmdsDataStore,
}

/// A network device.
#[derive(Debug)]
pub struct Net {
    /// Identifier of the device.
    pub id: String,
    /// Features, queues and activation.
    pub base: VirtioBase,
    /// Hardware address given to the guest, if one was chosen.
    pub guest_mac: Option<MacAddr>,
    /// What the guest reads of the configuration.
    pub config_space: ConfigSpace,
    /// The stack through which the device exposes the metadata service, if it does.
    pub mmds_ns: Option<MmdsNetworkStack>,
    /// Whether a received frame is held back because the guest had no buffer for it.
    pub rx_deferred_frame: bool,
}

/// Saved state of a network device.
#[derive(Debug)]
pub struct NetState {
    /// Identifier of the device.
    pub id: String,
    /// Features, queues and activation.
    pub virtio_state: VirtioDeviceState,
    /// Address at which the device exposed the metadata service, if it did.
    pub mmds_ns: Option<u32>,
    /// Hardware address given to the guest, if one was chosen.
    pub guest_mac: Option<MacAddr>,
    /// What the guest read of the configuration.
    pub config_space: ConfigSpace,
}

/// A saved network state as a mathematical value.
pub struct NetStateView {
    pub id: Seq<char>,
    pub virtio_state: VirtioDeviceStateView,
    pub mmds_ns: Option<u32>,
    pub guest_mac: Option<MacAddr>,
    pub config_space: ConfigSpace,
}

impl DeepView for NetState {
    type V = NetStateView;

    open spec fn deep_view(&self) -> NetStateView {
        NetStateView {
            id: self.id@,
            virtio_state: self.virtio_state.deep_view(),
            mmds_ns: self.mmds_ns,
            guest_mac: self.guest_mac,
            config_space: self.config_space,
        }
    }
}

/// What restoring a network device needs besides its state.
#[derive(Clone, Copy, Debug)]
pub struct NetConstructorArgs {
    /// The metadata service of the machine, if it has one.
    pub mmds: Option<Mmds>,
}

/// The address at which `stack` answers, if there is a stack.
pub open spec fn stack_address(stack: Option<MmdsNetworkStack>) -> Option<u32> {
    match stack {
        Some(ns) => Some(ns.ipv4_addr),
        None => None,
    }
}

impl Net {
    /// The state that saving this device gives.
    pub open spec fn saved(&self) -> NetStateView {
        NetStateView {
            id: self.id@,
            virtio_state: self.base.saved(TYPE_NET),
            mmds_ns: stack_address(self.mmds_ns),
            guest_mac: self.guest_mac,
            config_space: self.config_space,
        }
    }

    /// A device named `id` with two unconfigured queues, the address `guest_mac`, and no
    /// metadata service.
    pub fn new(id: String, guest_mac: Option<MacAddr>) -> (net: Self)
        ensures
            net.id == id,
            net.guest_mac == guest_mac,
            net.config_space.guest_mac == (match guest_mac {
                Some(mac) => mac,
                None => MacAddr { bytes: (0, 0, 0, 0, 0, 0) },
            }),
            net.mmds_ns is None,
            !net.rx_deferred_frame,
            !net.base.activated,
            net.base.avail_features == 0,
            net.base.acked_features == 0,
            net.base.queues@ == seq![
                Queue::unconfigured(MAX_QUEUE_SIZE),
                Queue::unconfigured(MAX_QUEUE_SIZE),
            ],
    {
        let mut queues: Vec<Queue> = Vec::new();
        queues.push(Queue::new(MAX_QUEUE_SIZE));
        queues.push(Queue::new(MAX_QUEUE_SIZE));
        let mac = match guest_mac {
            Some(mac) => mac,
            None => MacAddr { bytes: (0, 0, 0, 0, 0, 0) },
        };
        Net {
            id,
            base: VirtioBase { avail_features: 0, acked_features: 0, queues, activated: false },
            guest_mac,
            config_space: ConfigSpace { guest_mac: mac },
            mmds_ns: None,
            rx_deferred_frame: false,
        }
    }

    /// Has the device expose the metadata service `mmds` at `ipv4_addr`.
    pub fn configure_mmds_network_stack(&mut self, ipv4_addr: u32, mmds: Mmds)
        ensures
            *final(self) == (Net {
                mmds_ns: Some(MmdsNetworkStack { ipv4_addr, mmds }),
                ..*old(self)
            }),
    {
        self.mmds_ns = Some(MmdsNetworkStack { ipv4_addr, mmds });
    }

    /// Hands the frame that was held back to the guest or drops it, so that nothing is in
    /// flight when the device is saved.
    pub fn prepare_save(&mut self)
        ensures
            *final(self) == (Net { rx_deferred_frame: false, ..*old(self) }),
    {
        self.rx_deferred_frame = false;
    }

    /// Saves the device.
    pub fn save(&self) -> (state: NetState)
        ensures
            state.deep_view() == self.saved(),
    {
        let mmds_ns = match self.mmds_ns {
            Some(ns) => Some(ns.ipv4_addr),
            None => None,
        };
        NetState {
            id: self.id.clone(),
            virtio_state: VirtioDeviceState::from_device(TYPE_NET, &self.base),
            mmds_ns,
            guest_mac: self.guest_mac,
            config_space: self.config_space,
        }
    }

    /// Rebuilds a device from `state`, inactive and with nothing in flight. A device that
    /// exposed the metadata service is bound to the service of `args`, which must exist.
    pub fn restore(args: NetConstructorArgs, state: &NetState) -> (r: Result<
        Self,
        NetPersistError,
    >)
        ensures
            match r {
                Ok(dev) => {
                    &&& state.deep_view().virtio_state.fits(
                        TYPE_NET,
                        NET_NUM_QUEUES as nat,
                        MAX_QUEUE_SIZE,
                    )
                    &&& state.mmds_ns is Some ==> args.mmds is Some
                    &&& dev.saved() == (
                        NetStateView {
                            virtio_state: inactive(state.deep_view().virtio_state),
                            ..state.deep_view()
                        }
                    )
                    &&& dev.mmds_ns matches Some(ns) ==> Some(ns.mmds) == args.mmds
                    &&& !dev.rx_deferred_frame
                },
                Err(NetPersistError::VirtioState(err)) => {
                    &&& err == PersistError::InvalidInput
                    &&& !state.deep_view().virtio_state.fits(
                        TYPE_NET,
                        NET_NUM_QUEUES as nat,
                        MAX_QUEUE_SIZE,
                    )
                },
                Err(NetPersistError::NoMmdsDataStore) => {
                    &&& state.deep_view().virtio_state.fits(
                        TYPE_NET,
                        NET_NUM_QUEUES as nat,
                        MAX_QUEUE_SIZE,
                    )
                    &&& state.mmds_ns is Some
                    &&& args.mmds is None
                },
            },
    {
        let base = match state.virtio_state.restore_base(TYPE_NET, NET_NUM_QUEUES, MAX_QUEUE_SIZE) {
            Ok(base) => base,
            Err(err) => {
                return Err(NetPersistError::VirtioState(err));
            },
        };
        let mmds_ns = match state.mmds_ns {
            Some(ipv4_addr) => match args.mmds {
                Some(mmds) => Some(MmdsNetworkStack { ipv4_addr, mmds }),
                None => {
                    return Err(NetPersistError::NoMmdsDataStore);
                },
            },
            None => None,
        };
        Ok(
            Net {
                id: state.id.clone(),
                base,
                guest_mac: state.guest_mac,
                config_space: state.config_space,
                mmds_ns,
                rx_deferred_frame: false,
            },
        )
    }
}

} // verus!
