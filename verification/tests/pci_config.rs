use device_manager::devices::virtio::block::Block;
use device_manager::devices::virtio::device::VirtioDevice;
use device_manager::devices::virtio::pci_common_config::{
    COMMON_CONFIG_GENERATION, COMMON_DEVICE_FEATURE, COMMON_DEVICE_FEATURE_SELECT,
    COMMON_DEVICE_STATUS, COMMON_DRIVER_FEATURE, COMMON_DRIVER_FEATURE_SELECT, COMMON_MSIX_CONFIG,
    COMMON_NUM_QUEUES, COMMON_QUEUE_AVAIL, COMMON_QUEUE_DESC, COMMON_QUEUE_ENABLE,
    COMMON_QUEUE_NOTIFY_OFF, COMMON_QUEUE_SELECT, COMMON_QUEUE_SIZE, COMMON_QUEUE_USED,
};
use device_manager::devices::virtio::pci_transport::{MsiVectorGroup, VirtioPciDevice};
use device_manager::devices::virtio::persist::VirtioBase;
use device_manager::devices::virtio::queue::Queue;
use device_manager::vstate::memory::{GuestMemory, MemoryRegion};

const OFFERED: u64 = 0x0000_0001_0000_0041;

fn memory() -> GuestMemory {
    GuestMemory::new(vec![MemoryRegion { start: 0, len: 128 << 20 }])
}

fn pci_transport() -> VirtioPciDevice {
    VirtioPciDevice::new(
        "root".to_string(),
        VirtioDevice::Block(Block {
            id: "root".to_string(),
            base: VirtioBase {
                avail_features: OFFERED,
                acked_features: 0,
                queues: vec![Queue::new(256), Queue::new(128)],
                activated: false,
            },
            vhost_user: false,
            pending_ops: 0,
        }),
        MsiVectorGroup { vectors: vec![24, 25, 26] },
        8,
    )
}

fn read8(t: &VirtioPciDevice, offset: u64) -> u8 {
    let mut data = vec![0xaau8; 1];
    t.read_common_config(offset, &mut data);
    data[0]
}

fn read16(t: &VirtioPciDevice, offset: u64) -> u16 {
    let mut data = vec![0xaau8; 2];
    t.read_common_config(offset, &mut data);
    u16::from_le_bytes([data[0], data[1]])
}

fn read32(t: &VirtioPciDevice, offset: u64) -> u32 {
    let mut data = vec![0xaau8; 4];
    t.read_common_config(offset, &mut data);
    u32::from_le_bytes([data[0], data[1], data[2], data[3]])
}

fn read64(t: &VirtioPciDevice, offset: u64) -> u64 {
    let mut data = vec![0xaau8; 8];
    t.read_common_config(offset, &mut data);
    let mut bytes = [0u8; 8];
    bytes.copy_from_slice(&data);
    u64::from_le_bytes(bytes)
}

fn set_up(t: &mut VirtioPciDevice, index: u16, at: u64, mem: &GuestMemory) {
    t.write_common_config(COMMON_QUEUE_SELECT, &index.to_le_bytes(), mem);
    t.write_common_config(COMMON_QUEUE_SIZE, &16u16.to_le_bytes(), mem);
    t.write_common_config(COMMON_QUEUE_DESC, &at.to_le_bytes(), mem);
    t.write_common_config(COMMON_QUEUE_AVAIL, &(at + 0x1000).to_le_bytes(), mem);
    t.write_common_config(COMMON_QUEUE_USED, &(at + 0x2000).to_le_bytes(), mem);
    t.write_common_config(COMMON_QUEUE_ENABLE, &1u16.to_le_bytes(), mem);
}

#[test]
fn common_configuration_reads_by_width() {
    let mem = memory();
    let mut t = pci_transport();
    assert_eq!(read8(&t, COMMON_DEVICE_STATUS), 0);
    assert_eq!(read8(&t, COMMON_CONFIG_GENERATION), 0);
    assert_eq!(read8(&t, 0x00), 0);
    assert_eq!(read16(&t, COMMON_NUM_QUEUES), 2);
    assert_eq!(read16(&t, COMMON_QUEUE_SIZE), 256);
    assert_eq!(read16(&t, 0x00), 0);
    assert_eq!(read32(&t, COMMON_DEVICE_FEATURE), 0x41);
    assert_eq!(read32(&t, COMMON_DEVICE_STATUS), 0);
    t.write_common_config(COMMON_DEVICE_FEATURE_SELECT, &1u32.to_le_bytes(), &mem);
    assert_eq!(read32(&t, COMMON_DEVICE_FEATURE_SELECT), 1);
    assert_eq!(read32(&t, COMMON_DEVICE_FEATURE), 0x1);
    t.write_common_config(COMMON_DEVICE_FEATURE_SELECT, &2u32.to_le_bytes(), &mem);
    assert_eq!(read32(&t, COMMON_DEVICE_FEATURE), 0);
    t.write_common_config(COMMON_MSIX_CONFIG, &7u16.to_le_bytes(), &mem);
    assert_eq!(read16(&t, COMMON_MSIX_CONFIG), 7);
    t.write_common_config(COMMON_QUEUE_SELECT, &1u16.to_le_bytes(), &mem);
    assert_eq!(read16(&t, COMMON_QUEUE_SELECT), 1);
    assert_eq!(read16(&t, COMMON_QUEUE_NOTIFY_OFF), 1);
    // A read of another width leaves the bytes as they were.
    let mut data = vec![0xaau8; 3];
    t.read_common_config(COMMON_NUM_QUEUES, &mut data);
    assert_eq!(data, vec![0xaa; 3]);
    let mut data: Vec<u8> = Vec::new();
    t.read_common_config(COMMON_NUM_QUEUES, &mut data);
    assert!(data.is_empty());
}

#[test]
fn common_configuration_takes_features_that_are_offered() {
    let mem = memory();
    let mut t = pci_transport();
    t.write_common_config(COMMON_DRIVER_FEATURE, &0x43u32.to_le_bytes(), &mem);
    assert_eq!(t.virtio_device().base().acked_features, 0x41);
    assert_eq!(read32(&t, COMMON_DRIVER_FEATURE), 0x41);
    t.write_common_config(COMMON_DRIVER_FEATURE_SELECT, &1u32.to_le_bytes(), &mem);
    t.write_common_config(COMMON_DRIVER_FEATURE, &0xffu32.to_le_bytes(), &mem);
    assert_eq!(t.virtio_device().base().acked_features, OFFERED);
    assert_eq!(read32(&t, COMMON_DRIVER_FEATURE), 0x1);
    t.write_common_config(COMMON_DRIVER_FEATURE_SELECT, &5u32.to_le_bytes(), &mem);
    t.write_common_config(COMMON_DRIVER_FEATURE, &0xffu32.to_le_bytes(), &mem);
    assert_eq!(t.virtio_device().base().acked_features, OFFERED);
    // A write of another width is not taken.
    t.write_common_config(COMMON_DRIVER_FEATURE_SELECT, &[0u8, 0, 0], &mem);
    assert_eq!(read32(&t, COMMON_DRIVER_FEATURE_SELECT), 5);
}

#[test]
fn common_configuration_sets_up_the_selected_queue() {
    let mem = memory();
    let mut t = pci_transport();
    t.write_common_config(COMMON_QUEUE_SELECT, &1u16.to_le_bytes(), &mem);
    t.write_common_config(COMMON_QUEUE_SIZE, &32u16.to_le_bytes(), &mem);
    t.write_common_config(COMMON_QUEUE_DESC, &0x1234_5670u32.to_le_bytes(), &mem);
    t.write_common_config(COMMON_QUEUE_DESC + 4, &0x9u32.to_le_bytes(), &mem);
    t.write_common_config(COMMON_QUEUE_AVAIL, &0x1_0000_0002u64.to_le_bytes(), &mem);
    t.write_common_config(COMMON_QUEUE_USED, &0xffff_ffff_ffff_fffcu64.to_le_bytes(), &mem);
    t.write_common_config(COMMON_QUEUE_USED, &0x4u32.to_le_bytes(), &mem);
    t.write_common_config(COMMON_QUEUE_ENABLE, &1u16.to_le_bytes(), &mem);
    assert_eq!(
        t.virtio_device().base().queues[1],
        Queue {
            max_size: 128,
            size: 32,
            ready: true,
            desc_table: 0x9_1234_5670,
            avail_ring: 0x1_0000_0002,
            used_ring: 0xffff_ffff_0000_0004,
            next_avail: 0,
            next_used: 0,
        }
    );
    assert_eq!(t.virtio_device().base().queues[0], Queue::new(256));
    assert_eq!(read16(&t, COMMON_QUEUE_SIZE), 32);
    assert_eq!(read16(&t, COMMON_QUEUE_ENABLE), 1);
    assert_eq!(read32(&t, COMMON_QUEUE_DESC), 0x1234_5670);
    assert_eq!(read32(&t, COMMON_QUEUE_DESC + 4), 0x9);
    assert_eq!(read64(&t, COMMON_QUEUE_DESC), 0x9_1234_5670);
    assert_eq!(read64(&t, COMMON_QUEUE_AVAIL), 0x1_0000_0002);
    assert_eq!(read64(&t, COMMON_QUEUE_USED), 0xffff_ffff_0000_0004);
    assert_eq!(read64(&t, COMMON_QUEUE_SIZE), 0);
    // A queue that does not exist takes nothing and reads as nothing.
    t.write_common_config(COMMON_QUEUE_SELECT, &2u16.to_le_bytes(), &mem);
    t.write_common_config(COMMON_QUEUE_SIZE, &8u16.to_le_bytes(), &mem);
    assert_eq!(read16(&t, COMMON_QUEUE_SIZE), 0);
    assert_eq!(read64(&t, COMMON_QUEUE_DESC), 0);
    assert_eq!(t.virtio_device().base().queues.len(), 2);
}

#[test]
fn a_ready_status_activates_the_device_behind_the_pci_transport() {
    let mem = memory();
    let mut t = pci_transport();
    set_up(&mut t, 0, 0x10000, &mem);
    set_up(&mut t, 1, 0x20000, &mem);
    t.write_common_config(COMMON_DEVICE_STATUS, &[3u8], &mem);
    assert_eq!(read8(&t, COMMON_DEVICE_STATUS), 3);
    assert!(!t.device_activated);
    t.write_common_config(COMMON_DEVICE_STATUS, &[15u8], &mem);
    assert_eq!(read8(&t, COMMON_DEVICE_STATUS), 15);
    assert!(t.device_activated);
    assert!(t.virtio_device().is_activated());
    assert_eq!(t.id, "root");
    assert_eq!(t.pci_device_bdf, 8);
    assert_eq!(t.msix_vectors.vectors, vec![24, 25, 26]);
    // A device that runs takes no queue, no feature and no reset.
    t.write_common_config(COMMON_QUEUE_SIZE, &64u16.to_le_bytes(), &mem);
    assert_eq!(read16(&t, COMMON_QUEUE_SIZE), 16);
    t.write_common_config(COMMON_DRIVER_FEATURE, &0x41u32.to_le_bytes(), &mem);
    assert_eq!(t.virtio_device().base().acked_features, 0);
    t.write_common_config(COMMON_DEVICE_STATUS, &[0u8], &mem);
    assert_eq!(read8(&t, COMMON_DEVICE_STATUS), 0x8f);
    assert!(t.device_activated);
}

#[test]
fn a_ready_status_with_a_bad_queue_asks_for_a_reset() {
    let mem = memory();
    let mut t = pci_transport();
    set_up(&mut t, 0, 0x10000, &mem);
    t.write_common_config(COMMON_DEVICE_STATUS, &[15u8], &mem);
    assert_eq!(read8(&t, COMMON_DEVICE_STATUS), 0x4f);
    assert!(!t.device_activated);
    assert!(!t.virtio_device().is_activated());
    // A status with the failed bit starts nothing.
    let mut t = pci_transport();
    set_up(&mut t, 0, 0x10000, &mem);
    set_up(&mut t, 1, 0x20000, &mem);
    t.write_common_config(COMMON_DEVICE_STATUS, &[0x8fu8], &mem);
    assert_eq!(read8(&t, COMMON_DEVICE_STATUS), 0x8f);
    assert!(!t.device_activated);
}

#[test]
fn a_zero_status_resets_the_pci_transport() {
    let mem = memory();
    let mut t = pci_transport();
    t.write_common_config(COMMON_DRIVER_FEATURE, &0x1u32.to_le_bytes(), &mem);
    t.write_common_config(COMMON_DEVICE_FEATURE_SELECT, &1u32.to_le_bytes(), &mem);
    t.write_common_config(COMMON_MSIX_CONFIG, &2u16.to_le_bytes(), &mem);
    set_up(&mut t, 1, 0x20000, &mem);
    t.write_common_config(COMMON_DEVICE_STATUS, &[3u8], &mem);
    t.write_common_config(COMMON_DEVICE_STATUS, &[0u8], &mem);
    assert_eq!(read8(&t, COMMON_DEVICE_STATUS), 0);
    assert_eq!(read32(&t, COMMON_DEVICE_FEATURE_SELECT), 0);
    assert_eq!(read16(&t, COMMON_QUEUE_SELECT), 0);
    assert_eq!(read16(&t, COMMON_MSIX_CONFIG), 0);
    assert_eq!(t.virtio_device().base().acked_features, 0);
    assert_eq!(t.virtio_device().base().avail_features, OFFERED);
    assert_eq!(
        t.virtio_device().base().queues,
        vec![Queue::new(256), Queue::new(128)]
    );
}
