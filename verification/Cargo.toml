[package]
name = "header_locator"
version = "0.1.0"
edition = "2021"

[dependencies]
log = "*"
pkg-config = "*"
