[package]
name = "clustercut"
version = "0.1.0"
edition = "2021"
publish = false

[dependencies]
chacha20poly1305 = "0.10"
spake2 = "0.4"
uuid = { version = "1", features = ["v4"] }
