use device_manager::devices::virtio::block::Block;
use device_manager::devices::virtio::device::VirtioDevice;
use device_manager::devices::virtio::mmio_registers::{
    MMIO_MAGIC_VALUE, MMIO_VERSION, REG_CONFIG_GENERATION, REG_DEVICE_FEATURES,
    REG_DEVICE_FEATURES_SEL, REG_DEVICE_ID, REG_DRIVER_FEATURES, REG_DRIVER_FEATURES_SEL,
    REG_INTERRUPT_ACK, REG_INTERRUPT_STATUS, REG_MAGIC, REG_QUEUE_AVAIL_HIGH, REG_QUEUE_AVAIL_LOW,
    REG_QUEUE_DESC_HIGH, REG_QUEUE_DESC_LOW, REG_QUEUE_NUM, REG_QUEUE_NUM_MAX, REG_QUEUE_READY,
    REG_QUEUE_SEL, REG_QUEUE_USED_HIGH, REG_QUEUE_USED_LOW, REG_STATUS, REG_VENDOR_ID, REG_VERSION,
    STATUS_ACKNOWLEDGE, STATUS_DEVICE_NEEDS_RESET, STATUS_DRIVER, STATUS_DRIVER_OK, STATUS_FAILED,
    STATUS_FEATURES_OK,
};
use device_manager::devices::virtio::persist::VirtioBase;
use device_manager::devices::virtio::queue::Queue;
use device_manager::devices::virtio::transport::MmioTransport;
use device_manager::devices::virtio::TYPE_BLOCK;
use device_manager::vstate::memory::{GuestMemory, MemoryRegion};

const FEATURES: u64 = 0x0000_0001_0000_0041;

fn guest_memory() -> GuestMemory {
    GuestMemory::new(vec![MemoryRegion { start: 0, len: 128 << 20 }])
}

fn transport() -> MmioTransport {
    MmioTransport::new(
        VirtioDevice::Block(Block {
            id: "root".to_string(),
            base: VirtioBase {
                avail_features: FEATURES,
                acked_features: 0,
                queues: vec![Queue::new(256), Queue::new(128)],
                activated: false,
            },
            vhost_user: false,
            pending_ops: 0,
        }),
        false,
    )
}

fn read(t: &MmioTransport, offset: u64) -> u32 {
    let mut data = vec![0u8; 4];
    t.bus_read(offset, &mut data);
    u32::from_le_bytes([data[0], data[1], data[2], data[3]])
}

fn write(t: &mut MmioTransport, offset: u64, value: u32, mem: &GuestMemory) {
    t.bus_write(offset, &value.to_le_bytes(), mem);
}

fn negotiated(mem: &GuestMemory) -> MmioTransport {
    let mut t = transport();
    write(&mut t, REG_STATUS, STATUS_ACKNOWLEDGE, mem);
    write(&mut t, REG_STATUS, STATUS_ACKNOWLEDGE | STATUS_DRIVER, mem);
    write(
        &mut t,
        REG_STATUS,
        STATUS_ACKNOWLEDGE | STATUS_DRIVER | STATUS_FEATURES_OK,
        mem,
    );
    t
}

fn set_up_queue(t: &mut MmioTransport, index: u32, at: u64, mem: &GuestMemory) {
    write(t, REG_QUEUE_SEL, index, mem);
    write(t, REG_QUEUE_NUM, 16, mem);
    write(t, REG_QUEUE_DESC_LOW, at as u32, mem);
    write(t, REG_QUEUE_DESC_HIGH, (at >> 32) as u32, mem);
    write(t, REG_QUEUE_AVAIL_LOW, (at + 0x1000) as u32, mem);
    write(t, REG_QUEUE_AVAIL_HIGH, 0, mem);
    write(t, REG_QUEUE_USED_LOW, (at + 0x2000) as u32, mem);
    write(t, REG_QUEUE_USED_HIGH, 0, mem);
    write(t, REG_QUEUE_READY, 1, mem);
}

#[test]
fn identification_registers_read_fixed_values() {
    let t = transport();
    assert_eq!(read(&t, REG_MAGIC), 0x7472_6976);
    assert_eq!(read(&t, REG_MAGIC), MMIO_MAGIC_VALUE);
    assert_eq!(read(&t, REG_VERSION), 2);
    assert_eq!(read(&t, REG_VERSION), MMIO_VERSION);
    assert_eq!(read(&t, REG_DEVICE_ID), TYPE_BLOCK);
    assert_eq!(read(&t, REG_VENDOR_ID), 0);
    assert_eq!(read(&t, REG_STATUS), 0);
    assert_eq!(read(&t, REG_INTERRUPT_STATUS), 0);
    assert_eq!(read(&t, REG_CONFIG_GENERATION), 0);
    assert_eq!(read(&t, 0x48), 0);
}

#[test]
fn reads_and_writes_of_another_width_do_nothing() {
    let mem = guest_memory();
    let mut t = transport();
    let mut data = vec![0xaau8; 2];
    t.bus_read(REG_MAGIC, &mut data);
    assert_eq!(data, vec![0xaa, 0xaa]);
    let mut data = vec![0xaau8; 8];
    t.bus_read(REG_MAGIC, &mut data);
    assert_eq!(data, vec![0xaa; 8]);
    t.bus_write(REG_STATUS, &[1u8], &mem);
    assert_eq!(t.state.device_status, 0);
    t.bus_write(REG_QUEUE_SEL, &[1u8, 0, 0, 0, 0, 0, 0, 0], &mem);
    assert_eq!(t.state.queue_select, 0);
}

#[test]
fn features_are_read_by_halves() {
    let mem = guest_memory();
    let mut t = transport();
    assert_eq!(read(&t, REG_DEVICE_FEATURES), 0x41);
    write(&mut t, REG_DEVICE_FEATURES_SEL, 1, &mem);
    assert_eq!(read(&t, REG_DEVICE_FEATURES), 0x1);
    write(&mut t, REG_DEVICE_FEATURES_SEL, 2, &mem);
    assert_eq!(read(&t, REG_DEVICE_FEATURES), 0);
}

#[test]
fn features_are_acknowledged_while_negotiating_only() {
    let mem = guest_memory();
    let mut t = transport();
    write(&mut t, REG_DRIVER_FEATURES, 0x41, &mem);
    assert_eq!(t.device().base().acked_features, 0);
    write(&mut t, REG_STATUS, STATUS_ACKNOWLEDGE, &mem);
    write(&mut t, REG_STATUS, STATUS_ACKNOWLEDGE | STATUS_DRIVER, &mem);
    // Only what the device offers is taken.
    write(&mut t, REG_DRIVER_FEATURES, 0x43, &mem);
    assert_eq!(t.device().base().acked_features, 0x41);
    write(&mut t, REG_DRIVER_FEATURES_SEL, 1, &mem);
    write(&mut t, REG_DRIVER_FEATURES, 0x3, &mem);
    assert_eq!(t.device().base().acked_features, FEATURES);
    write(&mut t, REG_DRIVER_FEATURES_SEL, 2, &mem);
    write(&mut t, REG_DRIVER_FEATURES, 0xffff_ffff, &mem);
    assert_eq!(t.device().base().acked_features, FEATURES);

    let mut t = negotiated(&mem);
    write(&mut t, REG_DRIVER_FEATURES, 0x41, &mem);
    assert_eq!(t.device().base().acked_features, 0);
}

#[test]
fn status_goes_forward_one_step_at_a_time() {
    let mem = guest_memory();
    let mut t = transport();
    // A step that is not the next one changes nothing.
    write(&mut t, REG_STATUS, STATUS_DRIVER, &mem);
    assert_eq!(read(&t, REG_STATUS), 0);
    write(&mut t, REG_STATUS, STATUS_ACKNOWLEDGE | STATUS_DRIVER, &mem);
    assert_eq!(read(&t, REG_STATUS), 0);
    write(&mut t, REG_STATUS, STATUS_ACKNOWLEDGE, &mem);
    assert_eq!(read(&t, REG_STATUS), 1);
    write(&mut t, REG_STATUS, STATUS_ACKNOWLEDGE | STATUS_FEATURES_OK, &mem);
    assert_eq!(read(&t, REG_STATUS), 1);
    write(&mut t, REG_STATUS, STATUS_ACKNOWLEDGE | STATUS_DRIVER, &mem);
    assert_eq!(read(&t, REG_STATUS), 3);
    write(
        &mut t,
        REG_STATUS,
        STATUS_ACKNOWLEDGE | STATUS_DRIVER | STATUS_FEATURES_OK,
        &mem,
    );
    assert_eq!(read(&t, REG_STATUS), 11);
}

#[test]
fn queues_are_set_up_after_the_features() {
    let mem = guest_memory();
    let mut t = transport();
    assert_eq!(read(&t, REG_QUEUE_NUM_MAX), 256);
    write(&mut t, REG_QUEUE_SEL, 1, &mem);
    assert_eq!(read(&t, REG_QUEUE_NUM_MAX), 128);
    write(&mut t, REG_QUEUE_SEL, 2, &mem);
    assert_eq!(read(&t, REG_QUEUE_NUM_MAX), 0);
    assert_eq!(read(&t, REG_QUEUE_READY), 0);

    // Before the features are agreed the queues take nothing.
    write(&mut t, REG_QUEUE_SEL, 0, &mem);
    write(&mut t, REG_QUEUE_NUM, 16, &mem);
    assert_eq!(t.device().base().queues[0], Queue::new(256));

    let mut t = negotiated(&mem);
    write(&mut t, REG_QUEUE_SEL, 1, &mem);
    write(&mut t, REG_QUEUE_NUM, 0x1_0020, &mem);
    write(&mut t, REG_QUEUE_DESC_LOW, 0x1234_5670, &mem);
    write(&mut t, REG_QUEUE_DESC_HIGH, 0x9, &mem);
    write(&mut t, REG_QUEUE_AVAIL_HIGH, 0x1, &mem);
    write(&mut t, REG_QUEUE_AVAIL_LOW, 0x2, &mem);
    write(&mut t, REG_QUEUE_USED_LOW, 0xffff_fffc, &mem);
    write(&mut t, REG_QUEUE_USED_HIGH, 0xffff_ffff, &mem);
    write(&mut t, REG_QUEUE_USED_LOW, 0x4, &mem);
    write(&mut t, REG_QUEUE_READY, 1, &mem);
    assert_eq!(read(&t, REG_QUEUE_READY), 1);
    assert_eq!(
        t.device().base().queues[1],
        Queue {
            max_size: 128,
            size: 0x20,
            ready: true,
            desc_table: 0x9_1234_5670,
            avail_ring: 0x1_0000_0002,
            used_ring: 0xffff_ffff_0000_0004,
            next_avail: 0,
            next_used: 0,
        }
    );
    assert_eq!(t.device().base().queues[0], Queue::new(256));
    write(&mut t, REG_QUEUE_READY, 0, &mem);
    assert_eq!(read(&t, REG_QUEUE_READY), 0);
    // A queue that does not exist takes nothing.
    write(&mut t, REG_QUEUE_SEL, 7, &mem);
    write(&mut t, REG_QUEUE_NUM, 8, &mem);
    assert_eq!(t.device().base().queues.len(), 2);
}

#[test]
fn driver_ok_activates_a_device_with_valid_queues() {
    let mem = guest_memory();
    let mut t = negotiated(&mem);
    set_up_queue(&mut t, 0, 0x10000, &mem);
    set_up_queue(&mut t, 1, 0x20000, &mem);
    assert!(!t.device().is_activated());
    write(&mut t, REG_STATUS, 15, &mem);
    assert_eq!(read(&t, REG_STATUS), 15);
    assert!(t.device().is_activated());
    assert_eq!(t.device().id(), "root");
    // After the start the queues take nothing.
    write(&mut t, REG_QUEUE_SEL, 0, &mem);
    write(&mut t, REG_QUEUE_NUM, 32, &mem);
    assert_eq!(t.device().base().queues[0].size, 16);
    // An activated device cannot be reset.
    write(&mut t, REG_STATUS, 0, &mem);
    assert_eq!(read(&t, REG_STATUS), 15 | STATUS_FAILED);
    assert!(t.device().is_activated());
}

#[test]
fn driver_ok_with_a_bad_queue_asks_for_a_reset() {
    let mem = guest_memory();
    let mut t = negotiated(&mem);
    set_up_queue(&mut t, 0, 0x10000, &mem);
    write(&mut t, REG_STATUS, 15, &mem);
    assert_eq!(read(&t, REG_STATUS), 15 | STATUS_DEVICE_NEEDS_RESET);
    assert!(!t.device().is_activated());
    assert_eq!(STATUS_DRIVER_OK, 4);
}

#[test]
fn writing_zero_resets_a_device_that_does_not_run() {
    let mem = guest_memory();
    let mut t = transport();
    write(&mut t, REG_STATUS, STATUS_ACKNOWLEDGE, &mem);
    write(&mut t, REG_STATUS, STATUS_ACKNOWLEDGE | STATUS_DRIVER, &mem);
    write(&mut t, REG_DRIVER_FEATURES, 0x1, &mem);
    write(&mut t, REG_DEVICE_FEATURES_SEL, 1, &mem);
    write(
        &mut t,
        REG_STATUS,
        STATUS_ACKNOWLEDGE | STATUS_DRIVER | STATUS_FEATURES_OK,
        &mem,
    );
    set_up_queue(&mut t, 1, 0x20000, &mem);
    t.state.interrupt_status = 3;
    write(&mut t, REG_STATUS, 0, &mem);
    assert_eq!(read(&t, REG_STATUS), 0);
    assert_eq!(read(&t, REG_INTERRUPT_STATUS), 0);
    assert_eq!(t.state.features_select, 0);
    assert_eq!(t.state.queue_select, 0);
    assert_eq!(t.device().base().acked_features, 0);
    assert_eq!(t.device().base().avail_features, FEATURES);
    assert_eq!(
        t.device().base().queues,
        vec![Queue::new(256), Queue::new(128)]
    );
}

#[test]
fn the_guest_can_give_up_and_acknowledge_interrupts() {
    let mem = guest_memory();
    let mut t = transport();
    write(&mut t, REG_STATUS, STATUS_ACKNOWLEDGE, &mem);
    write(&mut t, REG_STATUS, STATUS_FAILED, &mem);
    assert_eq!(read(&t, REG_STATUS), STATUS_ACKNOWLEDGE | STATUS_FAILED);
    t.state.interrupt_status = 3;
    write(&mut t, REG_INTERRUPT_ACK, 1, &mem);
    assert_eq!(read(&t, REG_INTERRUPT_STATUS), 2);
    write(&mut t, REG_INTERRUPT_ACK, 2, &mem);
    assert_eq!(read(&t, REG_INTERRUPT_STATUS), 0);
}
