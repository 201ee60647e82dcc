[package]
name = "phenotype-shared"
version = "0.1.0"
edition = "2021"
publish = false

[dependencies]
async-trait = "0.1"
chrono = { version = "0.4", features = ["serde"] }
deadpool-postgres = "0.12"
once_cell = "1"
parking_lot = "0.12"
redis = { version = "0.25", features = ["tokio-comp", "connection-manager"] }
regex = "1"
reqwest = { version = "0.12", default-features = false }
serde = { version = "1", features = ["derive"] }
serde_json = "1"
serde_yaml = "0.9"
thiserror = "1"
tokio = { version = "1", features = ["full"] }
tokio-postgres = { version = "0.7", features = ["with-chrono-0_4", "with-serde_json-1"] }
uuid = { version = "1", features = ["v4"] }
