[package]
name = "pam_isolate"
version = "0.1.0"
edition = "2021"
publish = false

[dependencies]
anyhow = "=1.0.104"
clap = { version = "=4.6.7", features = ["derive"] }
fs4 = { version = "=1.1.0", features = ["sync"] }
futures = "=0.3.34"
log = { version = "=0.4.34", features = ["serde"] }
nix = { version = "=0.31.3", features = ["mount", "sched", "fs", "user", "process"] }
pam-bindings = "=0.3.0"
rtnetlink = "=0.23.0"
serde = { version = "=1.0.229", features = ["derive"] }
sysctl = "=0.7.1"
systemd-journal-logger = "=2.2.2"
tokio = { version = "=1.53.2", features = ["rt", "net", "time", "macros"] }
toml = "=1.1.7"
