[package]
name = "macfuse_session"
version = "0.1.0"
edition = "2021"
publish = false

[dependencies]
core-foundation-sys = { version = "0.8", default-features = false }
diskarbitration-sys = "*"
libc = "0.2"
log = "0.4"
nix = "0.24"
simple_logger = "*"

[dev-dependencies]
vmm-sys-util = "*"
