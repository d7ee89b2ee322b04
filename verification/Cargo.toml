[package]
name = "mysk_lib"
version = "0.1.0"
edition = "2021"
publish = false

[dependencies]
uuid = { version = "=1.29.1", features = ["v4", "serde"] }
rand = "=0.9.5"
sha2 = "=0.10.9"
bs58 = "=0.5.1"
chrono = { version = "=0.4.45", features = ["serde"] }
scc = "=2.4.0"
serde = { version = "=1.0.229", features = ["derive"] }
serde_json = "=1.0.154"
serde_qs = "=0.13.0"
jsonwebtoken = "=9.3.1"
reqwest = { version = "=0.12.28", default-features = false, features = ["json"] }
actix-web = { version = "=4.18.1", default-features = false }
sqlx = { version = "=0.7.4", default-features = false, features = ["postgres", "uuid", "chrono", "runtime-tokio"] }
tokio = { version = "=1.54.1", features = ["rt"] }
futures = "=0.3.34"
