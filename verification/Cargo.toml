[package]
name = "docker_clash"
version = "0.1.0"
edition = "2021"
publish = false

[dependencies]
anyhow = "1"
cmd_lib = "1"
env_logger = "0.9"
log = "0.4"
procfs = "0.12"
serde = { version = "1", features = ["derive"] }
serde_yaml = "0.8"
structopt = "0.3"
users = "0.11"
which = "4"
