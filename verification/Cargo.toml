[package]
name = "lifx_more"
version = "0.1.0"
edition = "2021"
publish = false

[dependencies]
lifx-core = "*"
tokio = { version = "1", features = ["net", "time", "sync", "rt", "macros"] }
serde = { version = "1", features = ["derive"] }
ron = "*"
displaydoc = "*"
