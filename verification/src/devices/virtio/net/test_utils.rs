//! Ready-made network devices and queues for trying things out.

use vstd::prelude::*;

use crate::devices::virtio::net::{MacAddr, Net};
use crate::devices::virtio::queue::Queue;
use crate::devices::virtio::MAX_QUEUE_SIZE;
use crate::mmds::{Mmds, MmdsNetworkStack, DEFAULT_IPV4_ADDR};
use crate::vstate::memory::GuestMemory;

verus! {

/// One of the two queues of a network device.
#[derive(Clone, Copy, Debug, PartialEq, Eq, Structural)]
pub enum NetQueue {
    /// The queue on which the guest receives.
    Rx,
    /// The queue on which the guest sends.
    Tx,
}

/// What can wake a network device.
#[derive(Clone, Copy, Debug, PartialEq, Eq, Structural)]
pub enum NetEvent {
    /// The guest has put buffers on the receive queue.
    RxQueue,
    /// The receive rate limiter has budget again.
    RxRateLimiter,
    /// The host interface has a frame.
    Tap,
    /// The guest has put frames on the send queue.
    TxQueue,
    /// The send rate limiter has budget again.
    TxRateLimiter,
}

/// Entries of the queues that [`virtqueues`] lays out.
pub const TEST_QUEUE_SIZE: u16 = 16;

/// Where the send queue of [`virtqueues`] starts.
pub const TEST_TXQ_START: u64 = 0x1000;

/// A queue laid out in guest memory from `start` on: descriptor table, available ring,
/// then the used ring at the next multiple of four.
#[derive(Clone, Copy, Debug, PartialEq, Eq, Structural)]
pub struct VirtQueue {
    /// First address of the layout.
    pub start: u64,
    /// Number of entries.
    pub size: u16,
}

impl VirtQueue {
    /// Address of the available ring.
    pub open spec fn spec_avail(&self) -> int {
        self.start + 16 * self.size
    }

    /// Address of the used ring: the first multiple of four behind the available ring.
    pub open spec fn spec_used(&self) -> int {
        let avail_end = self.spec_avail() + 6 + 2 * self.size;
        (avail_end + 3) / 4 * 4
    }

    /// First address behind the layout.
    pub open spec fn spec_end(&self) -> int {
        self.spec_used() + 6 + 8 * self.size
    }

    /// A layout of `size` entries from `start` on.
    pub fn new(start: u64, size: u16) -> (q: Self)
        ensures
            q == (VirtQueue { start, size }),
    {
        VirtQueue { start, size }
    }

    /// First address of the layout.
    pub fn start(&self) -> (a: u64)
        ensures
            a == self.start,
    {
        self.start
    }

    /// First address behind the layout.
    pub fn end(&self) -> (a: u64)
        requires
            self.spec_end() <= u64::MAX,
        ensures
            a == self.spec_end(),
    {
        let size: u64 = self.size as u64;
        let avail_end: u64 = self.start + 16 * size + 6 + 2 * size;
        let used: u64 = (avail_end + 3) / 4 * 4;
        used + 6 + 8 * size
    }

    /// The device's view of the laid-out queue: ready, with the size of the layout.
    pub fn create_queue(&self) -> (q: Queue)
        requires
            self.spec_end() <= u64::MAX,
        ensures
            q == (Queue {
                max_size: self.size,
                size: self.size,
                ready: true,
                desc_table: self.start,
                avail_ring: self.spec_avail() as u64,
                used_ring: self.spec_used() as u64,
                next_avail: 0,
                next_used: 0,
            }),
    {
        let size: u64 = self.size as u64;
        let avail: u64 = self.start + 16 * size;
        let used: u64 = (avail + 6 + 2 * size + 3) / 4 * 4;
        Queue {
            max_size: self.size,
            size: self.size,
            ready: true,
            desc_table: self.start,
            avail_ring: avail,
            used_ring: used,
            next_avail: 0,
            next_used: 0,
        }
    }
}

/// The decimal digits of `n`, most significant first.
pub open spec fn decimal_digits(n: nat) -> Seq<char>
    decreases n,
{
    if n < 10 {
        seq![digit_char(n)]
    } else {
        decimal_digits(n / 10).push(digit_char(n % 10))
    }
}

/// The character of the digit `d`.
pub open spec fn digit_char(d: nat) -> char {
    if d == 0 {
        '0'
    } else if d == 1 {
        '1'
    } else if d == 2 {
        '2'
    } else if d == 3 {
        '3'
    } else if d == 4 {
        '4'
    } else if d == 5 {
        '5'
    } else if d == 6 {
        '6'
    } else if d == 7 {
        '7'
    } else if d == 8 {
        '8'
    } else {
        '9'
    }
}

/// `usize::to_string`: the decimal digits of `n`, most significant first.
#[verifier::external_body]
fn decimal_string(n: usize) -> (s: String)
    ensures
        s@ == decimal_digits(n as nat),
{
    n.to_string()
}

/// The identifier of the `index`-th ready-made device: `net-device` and the digits of
/// `index`.
pub open spec fn default_net_id(index: usize) -> Seq<char> {
    "net-device"@ + decimal_digits(index as nat)
}

/// The `index`-th ready-made network device: named by [`default_net_id`], with the
/// address of [`default_guest_mac`], exposing a metadata service of its own at the
/// default address.
pub fn default_net(index: usize) -> (net: Net)
    ensures
        net.id@ == default_net_id(index),
        net.guest_mac == Some(MacAddr { bytes: (0x11, 0x22, 0x33, 0x44, 0x55, 0x66) }),
        net.config_space.guest_mac == (MacAddr { bytes: (0x11, 0x22, 0x33, 0x44, 0x55, 0x66) }),
        net.mmds_ns == Some(
            MmdsNetworkStack {
                ipv4_addr: DEFAULT_IPV4_ADDR,
                mmds: Mmds { version: crate::mmds::MmdsVersion::V1, imds_compat: false },
            },
        ),
        !net.rx_deferred_frame,
        !net.base.activated,
        net.base.queues@ == seq![
            Queue::unconfigured(MAX_QUEUE_SIZE),
            Queue::unconfigured(MAX_QUEUE_SIZE),
        ],
{
    let mut net = default_net_no_mmds(index);
    net.configure_mmds_network_stack(MmdsNetworkStack::default_ipv4_addr(), Mmds::default_config());
    net
}

/// The `index`-th ready-made network device without a metadata service.
pub fn default_net_no_mmds(index: usize) -> (net: Net)
    ensures
        net.id@ == default_net_id(index),
        net.guest_mac == Some(MacAddr { bytes: (0x11, 0x22, 0x33, 0x44, 0x55, 0x66) }),
        net.config_space.guest_mac == (MacAddr { bytes: (0x11, 0x22, 0x33, 0x44, 0x55, 0x66) }),
        net.mmds_ns is None,
        !net.rx_deferred_frame,
        !net.base.activated,
        net.base.queues@ == seq![
            Queue::unconfigured(MAX_QUEUE_SIZE),
            Queue::unconfigured(MAX_QUEUE_SIZE),
        ],
{
    let mut id = String::from_str("net-device");
    let digits = decimal_string(index);
    id.append(digits.as_str());
    Net::new(id, Some(default_guest_mac()))
}

/// The hardware address 11:22:33:44:55:66.
pub fn default_guest_mac() -> (mac: MacAddr)
    ensures
        mac == (MacAddr { bytes: (0x11, 0x22, 0x33, 0x44, 0x55, 0x66) }),
{
    MacAddr { bytes: (0x11, 0x22, 0x33, 0x44, 0x55, 0x66) }
}

/// Gives `net` the hardware address `mac`, also where the guest reads it.
pub fn set_mac(net: &mut Net, mac: MacAddr)
    ensures
        *final(net) == (Net {
            guest_mac: Some(mac),
            config_space: crate::devices::virtio::net::ConfigSpace { guest_mac: mac },
            ..*old(net)
        }),
{
    net.guest_mac = Some(mac);
    net.config_space.guest_mac = mac;
}

/// Replaces the queues of `net` by `rxq` and `txq`, in this order.
pub fn assign_queues(net: &mut Net, rxq: Queue, txq: Queue)
    ensures
        final(net).base.queues@ == seq![rxq, txq],
        final(net).id == old(net).id,
        final(net).guest_mac == old(net).guest_mac,
        final(net).config_space == old(net).config_space,
        final(net).mmds_ns == old(net).mmds_ns,
        final(net).rx_deferred_frame == old(net).rx_deferred_frame,
        final(net).base.avail_features == old(net).base.avail_features,
        final(net).base.acked_features == old(net).base.acked_features,
        final(net).base.activated == old(net).base.activated,
{
    net.base.queues.clear();
    net.base.queues.push(rxq);
    net.base.queues.push(txq);
}

/// The layouts of a receive queue at address 0 and a send queue at 0x1000, of 16 entries
/// each; the first ends before the second starts.
pub fn virtqueues(mem: &GuestMemory) -> (r: (VirtQueue, VirtQueue))
    ensures
        r.0 == (VirtQueue { start: 0, size: TEST_QUEUE_SIZE }),
        r.1 == (VirtQueue { start: TEST_TXQ_START, size: TEST_QUEUE_SIZE }),
        r.0.spec_end() < r.1.start,
{
    let rxq = VirtQueue::new(0, TEST_QUEUE_SIZE);
    let txq = VirtQueue::new(TEST_TXQ_START, TEST_QUEUE_SIZE);
    (rxq, txq)
}

} // verus!
