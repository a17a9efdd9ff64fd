[package]
name = "bsc_chainspec"
version = "0.1.0"
edition = "2021"
publish = false

[dependencies]
alloy-genesis = "=2.5.0"
eyre = "=0.6.14"
serde_json = "=1.0.154"
