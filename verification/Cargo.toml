[package]
name = "apollo_router"
version = "0.1.0"
edition = "2021"
publish = false

[dependencies]
futures = "0.3"
http = "0.2"
tokio = { version = "1", features = ["rt", "rt-multi-thread", "signal", "time", "macros"] }
tower = "0.4"
tracing = "0.1"
url = "2"
thiserror = "1"
displaydoc = "0.2"
derive_more = "0.99"
derivative = "2"
serde_yaml = "0.8"
