[package]
name = "maplibre-style-spec"
version = "0.1.0"
edition = "2021"
publish = false

[dependencies]
codegen = "*"
color = { version = "*", features = ["serde"] }
serde = { version = "1", features = ["derive"] }
serde_json = "1"
