[package]
name = "n2a2ui"
version = "0.1.0"
edition = "2021"
publish = false

[dependencies]
serde = { version = "1", features = ["derive"] }
serde_json = "1"
indexmap = { version = "2", features = ["serde"] }
imagesize = "*"
notionrs = "*"
reqwest = "*"
futures = "0.3"
async-stream = "0.3"
