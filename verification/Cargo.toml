[package]
name = "ysos"
version = "0.1.0"
edition = "2021"
publish = false

[dependencies]
ahash = "=0.8.12"
hashbrown = "=0.15.5"
x86_64 = { version = "=0.15.5", default-features = false, features = ["instructions"] }
spin = "=0.10.1"
lazy_static = { version = "=1.5.1", features = ["spin_no_std"] }
log = "=0.4.35"
uefi = "=0.33.0"
xmas-elf = "=0.10.0"
