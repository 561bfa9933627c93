[package]
name = "stack_shield"
version = "0.1.0"
edition = "2021"
publish = false

[dependencies]
anyhow = "=1.0.104"
clap = { version = "=3.2.25", features = ["derive"] }
clap-verbosity-flag = "=1.0.1"
colored = "=2.2.0"
log = "=0.4.34"
pca9535 = "=2.0.0"
rppal = { version = "=0.22.1", features = ["embedded-hal"] }
