use device_manager::devices::legacy::i8042::{
    EventCounter, EventError, I8042Device, I8042DeviceMetrics, I8042Error, CMD_RESET_CPU,
    EVENT_MAX, KEY_CTRL, OFS_DATA, OFS_STATUS,
};
use device_manager::devices::virtio::net::test_utils::{
    assign_queues, default_guest_mac, default_net, default_net_no_mmds, set_mac, virtqueues,
    VirtQueue,
};
use device_manager::devices::virtio::net::{MacAddr, RX_INDEX, TX_INDEX};
use device_manager::devices::virtio::queue::Queue;
use device_manager::mmds::{Mmds, MmdsVersion, DEFAULT_IPV4_ADDR};
use device_manager::vstate::memory::{GuestMemory, MemoryRegion};

#[test]
fn default_net_devices_are_named_by_their_index() {
    let net = default_net(7);
    assert_eq!(net.id, "net-device7");
    assert_eq!(default_net(120).id, "net-device120");
    assert_eq!(default_net_no_mmds(0).id, "net-device0");
    assert_eq!(net.guest_mac, Some(default_guest_mac()));
    assert_eq!(net.config_space.guest_mac, default_guest_mac());
    let ns = net.mmds_ns.unwrap();
    assert_eq!(ns.ipv4_addr, DEFAULT_IPV4_ADDR);
    assert_eq!(ns.ipv4_addr.to_be_bytes(), [169, 254, 169, 254]);
    assert_eq!(ns.mmds, Mmds { version: MmdsVersion::V1, imds_compat: false });
    assert!(default_net_no_mmds(7).mmds_ns.is_none());
    assert_eq!(net.base.queues, vec![Queue::new(256), Queue::new(256)]);
    assert!(!net.base.activated);
}

#[test]
fn mac_and_queues_can_be_set() {
    assert_eq!(default_guest_mac(), MacAddr { bytes: (0x11, 0x22, 0x33, 0x44, 0x55, 0x66) });
    let mut net = default_net_no_mmds(1);
    let mac = MacAddr { bytes: (1, 2, 3, 4, 5, 6) };
    set_mac(&mut net, mac);
    assert_eq!(net.guest_mac, Some(mac));
    assert_eq!(net.config_space.guest_mac, mac);

    let mem = GuestMemory::new(vec![MemoryRegion { start: 0, len: 0x10000 }]);
    let (rxq, txq) = virtqueues(&mem);
    assert_eq!(rxq, VirtQueue { start: 0, size: 16 });
    assert_eq!(txq.start(), 0x1000);
    assert!(rxq.end() < txq.start());
    // 256 bytes of descriptors, 38 of available ring, then 134 of used ring from 296 on
    assert_eq!(rxq.end(), 430);
    assert_eq!(txq.end(), 0x1000 + 430);
    assign_queues(&mut net, rxq.create_queue(), txq.create_queue());
    assert_eq!(net.base.queues.len(), 2);
    assert_eq!(
        net.base.queues[RX_INDEX],
        Queue {
            max_size: 16,
            size: 16,
            ready: true,
            desc_table: 0,
            avail_ring: 256,
            used_ring: 296,
            next_avail: 0,
            next_used: 0
        }
    );
    assert_eq!(net.base.queues[TX_INDEX].desc_table, 0x1000);
    assert!(net.base.queues[TX_INDEX].is_valid(&mem));
    assert_eq!(net.id, "net-device1");
}

#[test]
fn event_counters_hold_what_was_raised() {
    let mut evt = EventCounter::new();
    assert_eq!(evt.read(), Err(EventError::WouldBlock));
    assert_eq!(evt.write(3), Ok(()));
    assert_eq!(evt.write(EVENT_MAX - 2), Err(EventError::WouldBlock));
    assert_eq!(evt.write(EVENT_MAX - 3), Ok(()));
    assert_eq!(evt.write(1), Err(EventError::WouldBlock));
    assert_eq!(evt.write(u64::MAX), Err(EventError::WouldBlock));
    assert_eq!(evt.read(), Ok(EVENT_MAX));
    assert_eq!(evt.count, 0);
}

#[test]
fn i8042_counts_what_it_cannot_raise() {
    let mut i8042 = I8042Device::new(EventCounter { count: EVENT_MAX }, EventCounter { count: EVENT_MAX });
    assert_eq!(
        i8042.trigger_kbd_interrupt(),
        Err(I8042Error::KbdInterruptFailure(EventError::WouldBlock))
    );
    assert_eq!(
        i8042.trigger_key(KEY_CTRL),
        Err(I8042Error::KbdInterruptFailure(EventError::WouldBlock))
    );
    // the key is in the buffer all the same
    let mut data = vec![0];
    i8042.bus_read(OFS_DATA, &mut data);
    assert_eq!(data, [0x14]);
    i8042.bus_write(OFS_STATUS, &[CMD_RESET_CPU]);
    i8042.bus_read(OFS_STATUS, &mut data);
    i8042.bus_read(2, &mut data);
    i8042.bus_read(OFS_DATA, &mut vec![]);
    assert_eq!(
        i8042.metrics,
        I8042DeviceMetrics {
            error_count: 1,
            missed_read_count: 2,
            missed_write_count: 0,
            read_count: 2,
            reset_count: 1,
            write_count: 1,
        }
    );
    assert_eq!(i8042.reset_evt.count, EVENT_MAX);
    assert_eq!(I8042DeviceMetrics::new().read_count, 0);
    // reading an empty buffer gives 0
    i8042.bus_read(OFS_DATA, &mut data);
    assert_eq!(data, [0]);
}
