[package]
name = "gossip_traffic"
version = "0.1.0"
edition = "2021"
publish = false

[dependencies]
prost = { version = "0.14", default-features = false, features = ["std"] }
