[package]
name = "colossus-runtime"
version = "0.1.0"
edition = "2021"
publish = false

[dependencies]
base64 = "0.22"
hex = "0.4"
serde_json = "1"
sha2 = "0.10"
url = "2"
uuid = { version = "1", features = ["v7"] }
serde = { version = "1", features = ["derive"] }
serde-saphyr = "*"
getrandom = "0.3"
tempfile = "3"
async-trait = "0.1"
thiserror = "2"
tokio = { version = "1", features = ["rt", "macros", "sync", "time"] }
