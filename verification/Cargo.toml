[package]
name = "sqlite3_chromaprint"
version = "0.1.0"
edition = "2021"
publish = false

[dependencies]
anyhow = "=1.0.104"
base64 = "=0.22.1"
rusqlite = { version = "=0.40.2", features = ["functions", "loadable_extension"] }
rusty-chromaprint = "=0.3.0"
symphonia = { version = "0.5", features = ["mp3"] }
