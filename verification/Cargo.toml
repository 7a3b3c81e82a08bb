[package]
name = "alar2"
version = "0.9.0"
edition = "2021"
publish = false

[dependencies]
chrono = "=0.4.45"
clap = "=2.34.0"
cmd_lib = "=1.9.6"
fs_extra = "=1.3.0"
sys-mount = { version = "=1.5.1", default-features = false }
uapi = "=0.2.14"
