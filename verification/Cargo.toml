[package]
name = "scsi_lib"
version = "0.1.0"
edition = "2021"
publish = false

[dependencies]
nix = { version = "*", default-features = false, features = ["ioctl", "fs"] }
