[package]
name = "spreads_native"
version = "0.1.0"
edition = "2021"
publish = false

[dependencies]
libc = "=0.2.190"
libmimalloc-sys = { version = "=0.1.49", features = ["extended", "v2"] }
