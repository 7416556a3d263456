[package]
name = "loon"
version = "0.1.0"
edition = "2021"
publish = false

[dependencies]
urlencoding = "2.1.3"
serde = { version = "1", features = ["derive"] }
serde_json = "1"
rusqlite = { version = "*", features = ["bundled"] }
tracing = "0.1"
clap = { version = "4", features = ["derive"] }
tokio = { version = "1", features = ["rt-multi-thread", "macros", "sync"] }
tokio-stream = "0.1"
bytes = "1"
tempfile = "3"
reqwest = { version = "*", default-features = false, features = ["blocking", "json"] }
egui = "*"
egui_extras = "*"
