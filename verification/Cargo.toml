[package]
name = "fiberplane"
version = "0.1.0"
edition = "2021"
publish = false

[dependencies]
form_urlencoded = "1"
pulldown-cmark = { version = "0.9", default-features = false }
serde = { version = "1", features = ["derive"] }
serde_json = "1"
thiserror = "1"
time = { version = "0.3", features = ["formatting", "parsing"] }
