[package]
name = "krun_vmm"
version = "0.1.0"
edition = "2021"
publish = false

[dependencies]
flate2 = "1"
vm-memory = { version = "*", features = ["backend-mmap"] }
serde = { version = "1", features = ["derive"] }
bincode = "1"
