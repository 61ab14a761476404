[package]
name = "devbase"
version = "0.1.0"
edition = "2021"
publish = false

[dependencies]
git2 = { version = "*", default-features = false }
walkdir = "*"
url = "*"
dirs = "*"
rusqlite = { version = "*", features = ["bundled"] }
serde = { version = "*", features = ["derive"] }
thiserror = "*"

[dev-dependencies]
tempfile = "*"
