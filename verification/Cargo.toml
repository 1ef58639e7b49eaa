[package]
name = "mappers"
version = "0.1.0"
edition = "2021"
publish = false

[dependencies]
chrono = { version = "0.4", default-features = false, features = ["std"] }
url = "2"
image = { version = "*", default-features = false, features = ["png"] }
gdal = "*"
hyper = "0.11"
futures = "0.1"
serde = { version = "1", features = ["derive"] }
serde_json = "1"
