[package]
name = "rocm_build"
version = "0.1.0"
edition = "2021"
publish = false

[dependencies]
anyhow = "1"
clap = { version = "4", features = ["derive", "env"] }
dotenvy = "0.15"
env_logger = "0.11"
log = "0.4"
glob = "0.3"
home = "0.5"
num_cpus = "1"
serde = { version = "1", features = ["derive"] }
toml = "0.8"
walkdir = "2"
which = "*"
