[package]
name = "xdp-tutorial"
version = "0.1.0"
edition = "2021"
publish = false

[dependencies]
anyhow = "=1.0.104"
aya = "=0.13.1"
aya-log = "=0.2.1"
cargo-scaffold = "=0.15.0"
clap = { version = "=4.6.7", features = ["derive"] }
env_logger = "=0.11.11"
log = "=0.4.35"
tokio = { version = "=1.54.1", features = ["macros", "rt-multi-thread", "signal", "time"] }
