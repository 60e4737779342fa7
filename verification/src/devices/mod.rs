//! The devices that a guest can be given.

pub mod acpi;
pub mod legacy;
pub mod pci;
pub mod pseudo;
pub mod virtio;
