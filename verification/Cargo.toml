[package]
name = "cube_shim"
version = "0.1.0"
edition = "2021"
publish = false

[dependencies]
async-trait = "0.1"
cgroups-rs = "=0.5.1"
containerd-shim = { version = "=0.12.0", features = ["async"] }
containerd-shim-protos = { version = "=0.12.0", features = ["async", "sandbox"] }
libc = "0.2"
log = "0.4"
nix = { version = "=0.29.0", features = ["socket", "uio", "fs", "signal", "process"] }
oci-spec = "=0.10.0"
serde = { version = "1", features = ["derive"] }
serde_json = "1"
sha2 = "=0.10.9"
tokio = { version = "1", features = ["sync", "time", "rt", "rt-multi-thread", "process", "macros"] }
uuid = { version = "=1.29.0", features = ["v4"] }
zbus = "=5.19.0"
