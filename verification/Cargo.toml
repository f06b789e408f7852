[package]
name = "locate_cargo_manifest"
version = "0.2.2"
edition = "2021"
publish = false

[dependencies]
json = "0.12"
