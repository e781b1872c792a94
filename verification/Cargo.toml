[package]
name = "torrent_proxy"
version = "0.1.0"
edition = "2021"
publish = false

[dependencies]
serde_json = "=1.0.151"
actix-web = "=4.15.0"
tokio = { version = "=1.53.2", features = ["time", "macros", "rt-multi-thread"] }
wreq = "=0.15.3"
