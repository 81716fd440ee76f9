[package]
name = "buildserver"
version = "0.1.0"
edition = "2021"
publish = false

[dependencies]
rand = "*"
uuid = { version = "*", features = ["v4"] }
chrono = "*"
serde = { version = "*", features = ["derive"] }
serde_json = "*"
toml = "*"
anyhow = "*"
tokio = { version = "*", features = ["macros", "rt-multi-thread", "process", "io-util", "time", "sync"] }
actix-web = { version = "*", features = ["openssl"] }
actix-ws = "*"
openssl = "*"
reqwest = { version = "*", default-features = false }
