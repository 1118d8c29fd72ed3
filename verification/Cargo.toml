[package]
name = "swhkd"
version = "0.1.0"
edition = "2021"
publish = false

[dependencies]
evdev = { version = "0.12", features = ["tokio"] }
input = "0.9"
uinput = "0.1"
smallvec = "1"
libc = "0.2"
nix = { version = "0.27", features = ["ioctl"] }
tokio = { version = "1", features = ["full"] }
tokio-stream = "0.1"
log = "0.4"
env_logger = "0.10"
