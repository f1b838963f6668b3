[package]
name = "mshv_bindings"
version = "0.1.0"
edition = "2021"
publish = false

[dependencies]
libc = "0.2"
serde = "1.0"
serde_derive = "1.0"
vmm-sys-util = "*"
zerocopy = { version = "0.8", features = ["derive"] }
