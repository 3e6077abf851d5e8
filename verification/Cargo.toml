[package]
name = "tonlabs-cli"
version = "0.1.0"
edition = "2021"
publish = false

[dependencies]
base64 = "0.13"
hex = "0.4"
serde_json = "1"
ton-client-rs = "*"
