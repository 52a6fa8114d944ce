[package]
name = "kernel_dumper"
version = "0.1.0"
edition = "2021"
publish = false

[dependencies]
bitflags = "2"
x86_64 = { version = "*", default-features = false, features = ["instructions"] }
