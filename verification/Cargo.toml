[package]
name = "ktor_impersonate"
version = "0.1.0"
edition = "2021"
publish = false

[dependencies]
url = "2"
http = "1"
tokio = { version = "1", features = ["rt-multi-thread", "time"] }
bytes = "1"
futures-util = { version = "0.3", default-features = false, features = ["std"] }
rustls-native-certs = "*"
