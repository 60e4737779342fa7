//! State of the virtual machine that devices are attached to.

pub mod bus;
pub mod memory;
pub mod resources;
pub mod vm;
