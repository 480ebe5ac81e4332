[package]
name = "ufo_ipc"
version = "0.1.0"
edition = "2021"
publish = false

[dependencies]
bytemuck = "1"
nix = "0.26"
os_pipe = "1"
thiserror = "1"
