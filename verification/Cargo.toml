[package]
name = "nodedb_studio"
version = "0.1.0"
edition = "2021"
publish = false

[dependencies]
nodedb-client = { version = "=0.4.0", features = ["native"] }
nodedb-types = "=0.4.0"
serde = { version = "=1.0.229", features = ["derive"] }
serde_json = "=1.0.154"
thiserror = "=2.0.21"
async-trait = "=0.1.92"
dioxus = { version = "=0.7.10", features = ["router"] }
