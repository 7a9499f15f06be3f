[package]
name = "ru_berry"
version = "0.1.0"
edition = "2021"
publish = false

[dependencies]
chrono = "0.4"
r2d2 = "0.8"
r2d2_sqlite = "*"
rumqttc = { version = "0.24", default-features = false }
rusqlite = { version = "*", features = ["bundled"] }
serde = { version = "1", features = ["derive"] }
serde_json = "1"
tokio = { version = "1", features = ["macros", "rt-multi-thread", "signal"] }
warp = { version = "0.3", default-features = false }
