[package]
name = "openmc_lite"
version = "0.1.0"
edition = "2021"
publish = false

[dependencies]
names = { version = "=0.14.0", default-features = false }
mc_bootstrap = "=0.1.1"
app_dirs = "=1.2.1"
clap = { version = "=4.6.7", features = ["derive", "env"] }
serde = { version = "=1.0.229", features = ["derive"] }
toml = "=0.7.8"
open = "*"
