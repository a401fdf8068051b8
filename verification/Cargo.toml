[package]
name = "tsumugi"
version = "0.1.0"
edition = "2021"
publish = false

[dependencies]
anyhow = "1"
clap = { version = "4", features = ["derive"] }
curl = "0.4"
libc = "0.2"
prost = "*"
which = "*"
