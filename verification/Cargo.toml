[package]
name = "nexus"
version = "0.1.0"
edition = "2021"
publish = false

[dependencies]
chrono = { version = "=0.4.45", features = ["serde"] }
clap = { version = "=4.6.7", features = ["derive", "env"] }
colored = "=3.1.1"
gix = { version = "=0.90.0", default-features = false, features = ["sha1"] }
rand = "=0.10.3"
rusqlite = { version = "=0.41.1", features = ["bundled", "chrono"] }
serde = { version = "=1.0.229", features = ["derive"] }
serde_json = "=1.0.154"
