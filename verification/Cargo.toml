[package]
name = "hv_arch"
version = "0.1.0"
edition = "2021"
publish = false

[dependencies]
aarch64-cpu = "=11.2.0"
tock-registers = "=0.10.1"
x86 = "=0.52.0"
x86_64 = { version = "=0.15.5", default-features = false, features = ["instructions"] }
