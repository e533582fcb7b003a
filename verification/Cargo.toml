[package]
name = "spinsync"
version = "0.1.0"
edition = "2021"
publish = false

[dependencies]
lock_api = "*"
log = "*"
qemu_print = "*"
