[package]
name = "tdx_launch"
version = "0.1.0"
edition = "2021"
publish = false

[dependencies]
bitflags = "2"
kvm-bindings = { version = "0.8", features = ["fam-wrappers"] }
kvm-ioctls = "0.17"
libc = "0.2"
vmm-sys-util = "0.12"
