[package]
name = "ruma_events"
version = "0.1.0"
edition = "2021"
publish = false

[dependencies]
serde_json = { version = "1", features = ["preserve_order"] }
ruma-identifiers = "*"
ruma-events-macros = "*"
serde = { version = "1", features = ["derive"] }
js_int = "*"
