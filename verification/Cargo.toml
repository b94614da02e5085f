[package]
name = "desires"
version = "0.1.0"
edition = "2021"
publish = false

[dependencies]
actix-web = "*"
actix-cors = "*"
chrono = { version = "*", features = ["serde"] }
deadpool-postgres = "*"
dotenv = "*"
serde = { version = "*", features = ["derive"] }
serde_json = "*"
tokio-postgres = { version = "*", features = ["with-chrono-0_4", "with-uuid-1"] }
uuid = { version = "*", features = ["serde"] }
