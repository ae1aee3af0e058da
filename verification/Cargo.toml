[package]
name = "cylinder-cli"
version = "0.1.0"
edition = "2021"
publish = false

[dependencies]
clap = { version = "=4.6.7", features = ["derive"] }
cylinder = { version = "=0.3.1", features = ["jwt", "key-load"] }
flexi_logger = "=0.31.10"
log = "=0.4.34"
