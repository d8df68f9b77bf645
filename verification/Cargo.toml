[package]
name = "moqt-transport"
version = "0.1.0"
edition = "2021"
publish = false

[dependencies]
async-trait = "0.1"
bytes = "1"
futures-core = "0.3"
thiserror = "1"
tokio = { version = "1", default-features = false, features = ["sync", "io-util"] }
tokio-util = { version = "0.7", default-features = false, features = ["codec"] }
