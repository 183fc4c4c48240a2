[package]
name = "wmrust"
version = "0.1.0"
edition = "2021"
publish = false

[dependencies]
rand = "0.8"
serde = { version = "1", features = ["derive"] }
quick-xml = { version = "*", features = ["serialize"] }
thiserror = "*"
mlua = { version = "*", features = ["lua54", "vendored"] }
egui = "*"
anyhow = "1"
tracing = "0.1"
tracing-subscriber = "0.3"
