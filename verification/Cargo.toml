[package]
name = "libtopo"
version = "0.1.0"
edition = "2021"
publish = false

[dependencies]
illumos-nvpair = "*"
illumos-nvpair-sys = "*"
thiserror = "*"
