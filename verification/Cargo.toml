[package]
name = "liteinst_runtime"
version = "0.1.0"
edition = "2021"
publish = false

[dependencies]
iced-x86 = "=1.22.0"
libc = "=0.2.191"
