//! Device topology and snapshot bookkeeping for a minimalist virtual machine monitor.
//!
//! The crate keeps track of the paravirtualised and legacy devices of one guest: which
//! bus regions, interrupt lines and PCI slots they own, how that topology is captured in a
//! snapshot, and how it is rebuilt from one. Work that only the host can do (hypervisor
//! registrations, guest memory writes, interrupt delivery) is handed back to the caller as a
//! list of [`vstate::vm::HostAction`]s.

pub mod arch;
pub mod cmdline;
pub mod device_manager;
pub mod devices;
pub mod event_manager;
pub mod mmds;
pub mod resources;
pub mod vstate;
