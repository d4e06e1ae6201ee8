[package]
name = "tiny_http"
version = "0.1.0"
edition = "2021"
publish = false

[dependencies]
async-channel = "1"
async-lock = "2"
async-net = "1"
futures-lite = "1"
log = "0.4"
openssl = "0.10"
