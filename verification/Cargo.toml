[package]
name = "clap_cargo_extra"
version = "0.1.0"
edition = "2021"
publish = false

[dependencies]
anyhow = "=1.0.104"
cargo_metadata = "=0.15.4"
clap = { version = "=3.2.25", features = ["derive"] }
clap-cargo = { version = "=0.9.1", features = ["cargo_metadata"] }
heck = "=0.4.1"
