[package]
name = "bootc_media_creator"
version = "0.1.0"
edition = "2021"
publish = false

[dependencies]
udisks2 = "*"
