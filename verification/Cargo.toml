[package]
name = "atrium"
version = "0.1.0"
edition = "2021"
publish = false

[dependencies]
base64 = "0.22"
sha2 = "0.10"
rand = { version = "0.8", features = ["small_rng"] }
http = "1"
serde = { version = "1", features = ["derive"] }
serde_json = "1"
chrono = "0.4"
jose-jwk = "0.1"
jose-jwa = "0.1"
thiserror = "1"
dashmap = "6"
tokio = { version = "1", features = ["sync"] }
heck = "0.5"
itertools = "0.13"
serde_html_form = "0.2"
