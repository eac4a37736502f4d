[package]
name = "hotkey_typist"
version = "0.1.0"
edition = "2021"
publish = false

[dependencies]
arboard = { version = "3", default-features = false }
async-openai = "0.14"
enigo = "0.1"
futures-util = "0.3"
rdev = "0.5"
serde = { version = "1", features = ["derive"] }
serde_json = "1"
tokio = { version = "1", features = ["full"] }
