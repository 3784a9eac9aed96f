[package]
name = "sedna_rs"
version = "0.1.0"
edition = "2021"
publish = false

[dependencies]
libc = "=0.2.191"
once_cell = "=1.21.4"
rust-embed = { version = "=8.13.0", features = ["interpolate-folder-path"] }
tempfile = "=3.27.0"
thiserror = "=1.0.69"
