[package]
name = "shiplift"
version = "0.7.0"
edition = "2021"
publish = false

[dependencies]
bytes = "0.5"
futures-util = { version = "0.3", features = ["io"] }
hex = "0.4"
http = "0.2"
hyper = "0.13"
hyper-openssl = "0.8"
hyperlocal = "0.7"
mime = "0.3"
openssl = "0.10"
pin-project = "0.4"
serde = { version = "1", features = ["derive"] }
serde_json = "1"
serde_urlencoded = "0.7"
tar = "0.4"
tokio = { version = "0.2", features = ["io-util", "stream"] }
tokio-util = { version = "0.3", features = ["codec"] }
url = "2"
