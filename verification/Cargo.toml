[package]
name = "nekotatsu"
version = "0.1.0"
edition = "2021"
publish = false

[dependencies]
clap = { version = "4", features = ["derive"] }
etcetera = "*"
flate2 = "1"
mlua = { version = "*", features = ["luau"] }
prost = "*"
regex = "1"
reqwest = { version = "0.12", default-features = false, features = ["blocking", "rustls-tls"] }
serde = { version = "1", features = ["derive"] }
serde_json = "1"
thiserror = "*"
toml = "*"
tracing = "0.1"
tracing-subscriber = "0.3"
url = "2"
zip = { version = "*", default-features = false, features = ["deflate"] }
