[package]
name = "tuxedo_infinitybook_gen10"
version = "0.1.0"
edition = "2021"
publish = false

[dependencies]
anyhow = "1"
clap = { version = "4", features = ["derive"] }
env_logger = "*"
log = "0.4"
nix = { version = "*", features = ["ioctl"] }
prost = "*"
sysinfo = { version = "*", default-features = false, features = ["system"] }
systemd-journal-logger = "*"
tokio = { version = "1", features = ["rt", "macros", "signal", "net", "fs"] }
tokio-util = "*"
tonic = "*"
tonic-prost = "*"
