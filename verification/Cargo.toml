[package]
name = "vm-virtio"
version = "0.1.0"
edition = "2021"
publish = false

[dependencies]
vm-memory = { version = "*", features = ["backend-mmap"] }
vmm-sys-util = "*"
event-manager = "*"
kvm-ioctls = "*"
