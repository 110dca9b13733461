[package]
name = "kzg_harness"
version = "0.1.0"
edition = "2021"
publish = false

[dependencies]
c-kzg = "=2.1.8"
rand = "=0.10.3"
