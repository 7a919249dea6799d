[package]
name = "feed"
version = "1.2.0"
edition = "2021"
publish = false

[dependencies]
chrono = { version = "=0.4.45", default-features = false, features = ["alloc", "std"] }
curl = "=0.4.51"
log = "=0.4.34"
quick-xml = "=0.42.0"
serde_json = "=1.0.154"
url = "=2.5.8"
