[package]
name = "gatling"
version = "0.1.0"
edition = "2021"
publish = false

[dependencies]
color-eyre = "0.6"
log = "0.4"
serde_json = "1"
starknet = "0.5.0"
url = "2"
