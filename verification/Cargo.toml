[package]
name = "mma"
version = "0.1.0"
edition = "2021"
publish = false

[dependencies]
rust_decimal = { version = "=1.43.0", features = ["maths"] }
serde = { version = "1", features = ["derive"] }
serde_json = "1"
tokio = { version = "1", features = ["rt-multi-thread", "macros", "sync", "time", "net"] }
tracing = "0.1"
tracing-subscriber = { version = "0.3", default-features = false, features = ["fmt", "env-filter"] }
rumqttc = { version = "0.24", default-features = false }
tokio-tungstenite = "0.28"
futures-util = "0.3"
chrono = { version = "0.4", features = ["serde"] }
async-trait = "0.1"
bigdecimal = "0.4"
redis = { version = "1", default-features = false, features = ["tokio-comp", "connection-manager"] }
disruptor = "4"
config = { version = "0.15", default-features = false, features = ["toml"] }
dydx = "0.3"
