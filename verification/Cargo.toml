[package]
name = "walrus_store"
version = "0.1.0"
edition = "2021"
publish = false

[dependencies]
reqwest = { version = "0.12", features = ["json", "multipart"] }
url = "2"
serde = { version = "1", features = ["derive"] }
serde_json = "1"
thiserror = "1"
chrono = "0.4"
uuid = { version = "1", features = ["v4"] }
directories = "5"
async-std = "1"
rfd = { version = "0.14", default-features = false, features = ["xdg-portal", "async-std"] }
arboard = { version = "3", default-features = false }
