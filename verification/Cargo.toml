[package]
name = "cherryrgb"
version = "0.2.8"
edition = "2021"
publish = false

[dependencies]
anyhow = "=1.0.104"
clap = { version = "=4.6.7", features = ["derive"] }
ctrlc = "=3.5.2"
file-mode = "=0.1.2"
hex = "=0.4.3"
log = "=0.4.34"
nix = { version = "=0.31.3", features = ["user", "fs"] }
rgb = "=0.8.53"
rusb = "=0.9.4"
serde = { version = "=1.0.229", features = ["derive"] }
serde_json = "=1.0.154"
simple_logger = "=5.2.0"
systemd-journal-logger = "=2.2.2"
thiserror = "=1.0.69"

[dev-dependencies]
binrw = "0.11"
