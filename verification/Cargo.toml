[package]
name = "mt"
version = "0.1.0"
edition = "2021"
publish = false

[dependencies]
base64 = "*"
rand = "*"
bytes = "*"
tokio = { version = "*", features = ["rt-multi-thread", "macros", "sync", "time", "net"] }
tokio-util = { version = "*", features = ["codec"] }
futures = "*"
prost = "*"
serde = { version = "*", features = ["derive"] }
serde_json = "*"
toml = "*"
rusqlite = "*"
directories = "*"
thiserror = "*"
tracing = "*"
tracing-subscriber = { version = "*", features = ["env-filter"] }
uuid = "*"
btleplug = "*"
tokio-serial = { version = "*", default-features = false }
