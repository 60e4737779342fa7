//! Address space and interrupt line layout of the guest machine.

use vstd::prelude::*;

verus! {

/// First legacy interrupt line that devices may use.
pub const GSI_LEGACY_START: u32 = 5;

/// Last legacy interrupt line that devices may use.
pub const GSI_LEGACY_END: u32 = 23;

/// First interrupt line used for message signalled interrupts.
pub const GSI_MSI_START: u32 = 24;

/// Last interrupt line used for message signalled interrupts.
pub const GSI_MSI_END: u32 = 4095;

/// Start of the 32-bit window in which MMIO devices are placed.
pub const MMIO32_MEM_START: u64 = 0xc000_1000;

/// Size of the 32-bit MMIO window.
pub const MMIO32_MEM_SIZE: u64 = 0x3fff_f000;

/// Start of the 64-bit window in which PCI BARs are placed.
pub const MMIO64_MEM_START: u64 = 0x40_0000_0000;

/// Size of the 64-bit MMIO window.
pub const MMIO64_MEM_SIZE: u64 = 0x40_0000_0000;

/// Start of the memory reserved for data that platform devices share with the guest.
pub const SYSTEM_MEM_START: u64 = 0x9fc00;

/// Size of the memory reserved for platform devices.
pub const SYSTEM_MEM_SIZE: u64 = 0x4_0000;

/// Length of the register window of one MMIO device.
pub const MMIO_LEN: u64 = 0x1000;

/// The kinds of devices that can sit on the bus of memory-mapped registers.
#[derive(Clone, Copy, Debug, PartialEq, Eq, Structural)]
pub enum DeviceType {
    /// A virtio device of the given type.
    Virtio(u32),
    /// The serial console.
    Serial,
    /// The real-time clock.
    Rtc,
    /// The boot timer.
    BootTimer,
}

} // verus!
