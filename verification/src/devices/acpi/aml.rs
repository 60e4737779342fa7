//! What the firmware description of the platform devices says, before it is encoded.

use vstd::prelude::*;

verus! {

/// Hardware identifier of the generation-ID device.
pub const VMGENID_HID: &'static str = "FCVMGID";

/// Compatible identifier and name of the generation-ID device.
pub const VMGENID_CID: &'static str = "VM_Gen_Counter";

/// Hardware identifier of the clock device.
pub const VMCLOCK_HID: &'static str = "AMZNC10C";

/// Hardware identifier of the device that dispatches interrupts.
pub const GED_HID: &'static str = "ACPI0013";

/// Value with which a device is told that its data has changed.
pub const NOTIFY_DEVICE_CHANGED: u8 = 0x80;

/// The three devices of the description.
#[derive(Clone, Copy, Debug, PartialEq, Eq, Structural)]
pub enum AcpiObject {
    /// The generation-ID device.
    VmGenId,
    /// The clock device.
    VmClock,
    /// The device that dispatches interrupts.
    Ged,
}

impl AcpiObject {
    /// The name of the device in the system bus scope.
    pub fn path(&self) -> (p: &'static str)
        ensures
            p@ == (match self {
                AcpiObject::VmGenId => "_SB_.VGEN"@,
                AcpiObject::VmClock => "_SB_.VCLK"@,
                AcpiObject::Ged => "_SB_.GED_"@,
            }),
    {
        match self {
            AcpiObject::VmGenId => "_SB_.VGEN",
            AcpiObject::VmClock => "_SB_.VCLK",
            AcpiObject::Ged => "_SB_.GED_",
        }
    }
}

/// The description of a device that shares a piece of memory with the guest: where the
/// memory is, as the two halves of its address.
#[derive(Clone, Copy, Debug, PartialEq, Eq, Structural)]
pub struct SharedMemoryAml {
    /// The device that is described.
    pub object: AcpiObject,
    /// Low 32 bits of the address.
    pub addr_low: u32,
    /// High 32 bits of the address.
    pub addr_high: u32,
}

/// One rule of the interrupt dispatcher: when the interrupt line `line` is raised,
/// `target` is notified with `value`.
#[derive(Clone, Copy, Debug, PartialEq, Eq, Structural)]
pub struct NotifyRule {
    /// The interrupt line, as the handler compares it.
    pub line: u8,
    /// The device that is notified.
    pub target: AcpiObject,
    /// The value that it is notified with.
    pub value: u8,
}

/// The description of the device that dispatches interrupts: the lines that it listens
/// on, and what its handler does for each.
#[derive(Debug)]
pub struct GedAml {
    /// The interrupt lines, each edge triggered, active high and not shared.
    pub interrupts: Vec<u32>,
    /// The rules of the handler, in the order in which it tries them.
    pub rules: Vec<NotifyRule>,
}

/// The description of the platform devices: the two devices and the dispatcher of their
/// interrupts, in the order in which they are written.
#[derive(Debug)]
pub struct AcpiAml {
    /// The generation-ID device.
    pub vmgenid: SharedMemoryAml,
    /// The clock device.
    pub vmclock: SharedMemoryAml,
    /// The dispatcher.
    pub ged: GedAml,
}

/// The low 32 bits of `addr`.
pub open spec fn spec_addr_low(addr: u64) -> u32 {
    (addr % 0x1_0000_0000) as u32
}

/// The high 32 bits of `addr`.
pub open spec fn spec_addr_high(addr: u64) -> u32 {
    (addr / 0x1_0000_0000) as u32
}

/// The description of the device `object` whose memory is at `addr`.
pub fn shared_memory_aml(object: AcpiObject, addr: u64) -> (aml: SharedMemoryAml)
    ensures
        aml == (SharedMemoryAml {
            object,
            addr_low: spec_addr_low(addr),
            addr_high: spec_addr_high(addr),
        }),
        aml.addr_high * 0x1_0000_0000 + aml.addr_low == addr,
{
    SharedMemoryAml {
        object,
        addr_low: (addr % 0x1_0000_0000) as u32,
        addr_high: (addr / 0x1_0000_0000) as u32,
    }
}

} // verus!
