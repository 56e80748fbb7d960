[package]
name = "btrfs_migrator"
version = "0.1.0"
edition = "2021"
publish = false

[dependencies]
dialoguer = "*"
fstab = "*"
libbtrfsutil = "*"
qr2term = "*"
scopeguard = "*"
