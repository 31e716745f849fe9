[package]
name = "zed-sdk"
version = "0.1.0"
edition = "2021"
publish = false

[dependencies]
cfg-if = "1"
num-traits = "0.2"
thiserror = "1"
