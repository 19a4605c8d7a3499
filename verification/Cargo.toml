[package]
name = "vasystem_api"
version = "0.1.0"
edition = "2021"
publish = false

[dependencies]
url = "2"
serde = { version = "1", features = ["derive"] }
reqwest = { version = "0.11", default-features = false, features = ["json", "rustls-tls"] }
oauth2 = { version = "4", default-features = false, features = ["reqwest", "rustls-tls"] }
tokio = { version = "1", features = ["sync", "macros", "rt-multi-thread"] }
tonic = "0.8"
tower = "0.4"
http = "0.2"
clap = { version = "4", features = ["derive"] }
