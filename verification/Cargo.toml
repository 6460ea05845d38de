[package]
name = "hoags_tools"
version = "0.1.0"
edition = "2021"
publish = false

[dependencies]
regex = "1"
chrono = "0.4"
serde = { version = "1", features = ["derive"] }
serde_json = "1"
lopdf = "*"
rusqlite = { version = "*", features = ["bundled"] }
csv = "1"
tabled = "*"
clap = { version = "4", features = ["derive"] }
anyhow = "1"
rayon = "1"

[dev-dependencies]
tempfile = "3"
