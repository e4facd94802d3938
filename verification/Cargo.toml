[package]
name = "ebpf_examples"
version = "0.1.0"
edition = "2021"
publish = false

[dependencies]
libbpf-rs = "0.21"
libc = "0.2"
nix = { version = "0.27", features = ["net"] }
chrono = "0.4"
once_cell = "1"
