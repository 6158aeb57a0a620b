[package]
name = "bigneon"
version = "0.1.0"
edition = "2021"
publish = false

[dependencies]
ring = "=0.17.14"
itertools = "=0.15.0"
uuid = { version = "=1.29.0", features = ["serde", "v4"] }
chrono = "=0.4.45"
serde = { version = "=1.0.229", features = ["derive"] }
serde_json = "=1.0.154"
log = "=0.4.34"
reqwest = { version = "=0.13.5", default-features = false, features = ["blocking", "form"] }
actix-web = { version = "=4.18.1", default-features = false }
