[package]
name = "genai-client"
version = "0.1.0"
edition = "2021"
publish = false

[dependencies]
serde = { version = "1", features = ["derive"] }
serde_json = "1"
reqwest = { version = "0.12", default-features = false, features = ["json", "stream"] }
thiserror = "2"
log = "0.4"
colored = "2"
colored_json = "*"
futures-util = "0.3"
async-stream = "0.3"
bytes = "1"
