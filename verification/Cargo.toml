[package]
name = "bamboo"
version = "0.1.0"
edition = "2021"
publish = false

[dependencies]
actix-web = "4"
actix-web-lab = "*"
bcrypt = "*"
bytestring = "1"
chrono = { version = "0.4", default-features = false, features = ["std", "clock"] }
color-art = "*"
date-range = "*"
futures-util = "0.3"
log = "0.4"
parking_lot = "0.12"
serde = { version = "1", features = ["derive"] }
serde_json = "1"
tokio = { version = "1", features = ["sync", "rt", "time"] }
