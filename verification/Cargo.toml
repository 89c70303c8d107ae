[package]
name = "cronueue"
version = "0.1.0"
edition = "2021"
publish = false

[dependencies]
chrono = "0.4"
crossbeam-channel = "0.5"
rand = "0.8"
regex = "1"
async-trait = "0.1"
futures = "0.3"
lazy_static = "1"
mongodb = "2"
reqwest = "0.11"
serde = { version = "1", features = ["derive"] }
serde_json = "1"
thirtyfour = "0.27"
tokio = { version = "1", features = ["full"] }
zip = "0.6"
