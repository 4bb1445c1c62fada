[package]
name = "sxtwl_rs"
version = "0.1.0"
edition = "2021"
publish = false

[dependencies]
spin = { version = "0.9", default-features = false, features = ["mutex", "spin_mutex"] }
libm = "0.2"
anyhow = "1"
thiserror-no-std = "2"
