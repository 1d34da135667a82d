[package]
name = "chess_insights"
version = "0.1.0"
edition = "2021"
publish = false

[dependencies]
actix = "0.13"
actix-cors = "0.7"
actix-web = "4"
actix-web-actors = "4"
futures-util = "0.3"
reqwest = { version = "0.12", default-features = false, features = ["stream"] }
rusqlite = { version = "0.31", features = ["bundled"] }
serde = { version = "1", features = ["derive"] }
serde_json = "1"
serde_repr = "0.1"
tokio = { version = "1", features = ["io-util", "sync"] }
tokio-util = { version = "0.7", features = ["io"] }
uuid = { version = "1", features = ["v4"] }
