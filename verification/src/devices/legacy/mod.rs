//! The legacy devices of the port I/O space.

pub mod i8042;
