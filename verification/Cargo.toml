[package]
name = "stun_binding"
version = "0.1.0"
edition = "2021"
publish = false

[dependencies]
anyhow = "1"
bytecodec = "0.4"
futures = "0.3"
rand = "0.8"
stun_codec = "0.3"
tokio = { version = "1", features = ["macros", "net", "rt-multi-thread", "time"] }
