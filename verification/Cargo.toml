[package]
name = "ironfetch"
version = "0.1.0"
edition = "2021"
publish = false

[dependencies]
clap = { version = "=4.6.7", features = ["derive"] }
futures = "=0.3.34"
nix = { version = "=0.31.3", features = ["feature"] }
os-release = "=0.1.0"
ppd = "=0.1.7"
procfs = "=0.18.0"
serde = { version = "=1.0.229", features = ["derive"] }
serde_json = "=1.0.154"
smbios-lib = "*"
sys-info = "=0.9.1"
thiserror = "=2.0.21"
udev = "=0.9.3"
udisks2 = "=0.4.0"
uptime_lib = "=0.3.1"
zbus = "=5.19.0"
