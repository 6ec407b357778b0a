[package]
name = "context_mw"
version = "0.1.0"
edition = "2021"
publish = false

[dependencies]
hyper = "1"
headers = "0.4"
futures = "0.3"
rand = "0.8"
