[package]
name = "async_mpd"
version = "0.1.0"
edition = "2021"
publish = false

[dependencies]
multimap = "*"
chrono = "*"
async-net = "*"
futures-lite = "*"
