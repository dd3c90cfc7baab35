[package]
name = "session_bridge"
version = "0.1.0"
edition = "2021"
publish = false

[dependencies]
base64 = "0.22"
bincode = "2.0.1"
chrono = "0.4"
drain = "0.1"
futures = "0.3"
http = "1"
http-body-util = "0.1"
hyper = "1"
hyper-util = { version = "0.1", features = ["tokio"] }
k8s-openapi = { version = "0.22", features = ["v1_30"] }
kube = { version = "0.92", default-features = false, features = ["client", "ws"] }
nix = { version = "0.29", features = ["resource", "process", "fs"] }
rand = "0.8"
semver = "1"
serde = { version = "1", features = ["derive"] }
serde_json = "1"
socket2 = "0.5"
thiserror = "1"
tokio = { version = "1", features = ["rt", "macros", "net", "sync", "time"] }
tokio-tungstenite = "0.23"
tokio-util = "0.7"
tracing = "0.1"
tracing-subscriber = { version = "0.3", features = ["env-filter"] }
