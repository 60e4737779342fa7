//! The platform devices that firmware tables describe to the guest.

pub mod aml;
pub mod vmclock;
pub mod vmgenid;
