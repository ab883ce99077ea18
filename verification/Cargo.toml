[package]
name = "hv_core"
version = "0.1.0"
edition = "2021"
publish = false

[dependencies]
byteorder = "1"
bitintr = "0.3"
serde = { version = "1", features = ["derive"] }
serde_json = "1"
libc = "0.2"
anyhow = "1"
log = "0.4"
kvm-ioctls = "*"
kvm-bindings = "*"
vmm-sys-util = "*"
