[package]
name = "syqure"
version = "0.1.0"
edition = "2021"
publish = false

[dependencies]
anyhow = "1"
clap = { version = "4", features = ["derive", "env"] }
cxx = "1"
pyo3 = "0.22"
regex = "1"
serde = { version = "1", features = ["derive"] }
serde_json = "1"
tar = "0.4"
walkdir = "2"
zstd = "0.13"
