[package]
name = "msync"
version = "0.1.0"
edition = "2021"
publish = false

[dependencies]
anyhow = "*"
chrono = "*"
clap = { version = "*", features = ["derive"] }
config = "*"
daemonize = "*"
dirs = "*"
glob = "*"
notify = "*"
serde = { version = "*", features = ["derive"] }
sysinfo = "*"
