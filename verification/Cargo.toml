[package]
name = "cmdgen"
version = "0.1.0"
edition = "2021"
publish = false

[dependencies]
serde_json = "1"
reqwest = { version = "0.11", features = ["blocking", "json"] }
clap = { version = "4", features = ["derive"] }
colored = "2"
question = "0.2"
spinners = "4"
bat = { version = "0.24", default-features = false, features = ["regex-fancy"] }
