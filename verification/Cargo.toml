[package]
name = "routbox"
version = "0.1.0"
edition = "2021"
publish = false

[dependencies]
serde = "1"
serde_json = "1"
uuid = { version = "1", features = ["v7"] }
thiserror = "*"
rdkafka = "*"
tokio-postgres = { version = "0.7", features = ["with-uuid-1", "with-serde_json-1"] }
diesel = { version = "2", features = ["postgres", "uuid", "serde_json"] }
diesel-async = { version = "*", features = ["postgres"] }
sqlx = { version = "0.8", default-features = false, features = ["postgres", "runtime-tokio", "uuid", "json"] }
