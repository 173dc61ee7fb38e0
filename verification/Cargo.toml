[package]
name = "status_alert"
version = "0.1.0"
edition = "2021"
publish = false

[dependencies]
chrono = "*"
select = "*"
reqwest = { version = "*", default-features = false }
tokio = { version = "*", features = ["macros", "rt-multi-thread", "time"] }

[dev-dependencies]
serde_json = "*"
