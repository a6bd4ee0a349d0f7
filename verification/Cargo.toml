[package]
name = "sofie"
version = "0.1.0"
edition = "2021"
publish = false

[dependencies]
hyper-body-utils = "=0.1.14"
log = "=0.4.34"
thiserror = "=2.0.21"
toml = "=1.1.8"
vetis = "=0.1.6"
