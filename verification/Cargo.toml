[package]
name = "system_monitor"
version = "0.1.0"
edition = "2021"
publish = false

[dependencies]
dirs = "5.0.0"
hostname = "0.3.1"
nix = "0.24.3"
pretty-bytes = "*"
sysinfo = "0.23.5"
