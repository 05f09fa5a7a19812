[package]
name = "jpn_diary"
version = "0.1.0"
edition = "2021"
publish = false

[dependencies]
rusqlite = { version = "*", features = ["bundled", "functions"] }
regex = "1"
clap = { version = "4", features = ["derive"] }
