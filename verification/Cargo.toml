[package]
name = "tfserver"
version = "0.1.0"
edition = "2021"
publish = false

[dependencies]
bincode = { version = "2", features = ["serde"] }
sha2 = "0.10"
openssl = "0.10"
serde = { version = "1", features = ["derive"] }
num_enum = "0.7"
tokio = { version = "1", features = ["full"] }
tokio-util = { version = "0.7", features = ["codec"] }
tokio-rustls = { version = "0.26", default-features = false, features = ["ring", "tls12", "logging"] }
futures-util = { version = "0.3", features = ["sink"] }
async-trait = "0.1"
rand = "0.9"
tungstenite = "0.26"
