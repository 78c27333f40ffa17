[package]
name = "plugin_work_queue"
version = "0.1.0"
edition = "2021"
publish = false

[dependencies]
zstd = "*"
serde_json = "*"
sqlx = { version = "*", default-features = false, features = ["postgres", "runtime-tokio"] }
tokio = { version = "*", features = ["macros", "rt-multi-thread"] }
uuid = { version = "*", features = ["v4"] }
bytes = "*"
thiserror = "*"
reqwest = { version = "*", default-features = false, features = ["json"] }
