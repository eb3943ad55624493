[package]
name = "instar"
version = "0.1.0"
edition = "2021"
publish = false

[dependencies]
clap = { version = "4", features = ["derive"] }
env_logger = "0.11"
kvm-bindings = "*"
kvm-ioctls = "*"
libc = "0.2"
log = "0.4"
rand = "0.10"
vm-memory = { version = "*", features = ["backend-mmap"] }
