[package]
name = "xattr_bridge"
version = "0.1.0"
edition = "2021"
publish = false

[dependencies]
napi = "2"
napi-derive = "2"
xattr = "1"
