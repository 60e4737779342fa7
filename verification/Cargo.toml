[package]
name = "device_manager"
version = "0.1.0"
edition = "2021"
publish = false

[dependencies]
acpi_tables = "*"
aws-lc-rs = "*"
displaydoc = "0.2"
event-manager = "*"
kvm-ioctls = "*"
libc = "0.2"
linux-loader = "*"
log = "0.4"
serde = { version = "1", features = ["derive"] }
thiserror = "*"
vm-allocator = "*"
vm-device = "*"
vm-memory = { version = "*", features = ["backend-mmap"] }
vm-superio = "*"
vmm-sys-util = "*"
