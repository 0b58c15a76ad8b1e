[package]
name = "ios_agent_background"
version = "0.1.0"
edition = "2021"
publish = false

[dependencies]
block2 = "0.6"
objc2 = "0.6"
objc2-foundation = { version = "0.3", default-features = false, features = ["std", "NSString"] }
serde_json = "1"
tauri = { version = "2", default-features = false }
tokio = { version = "1", default-features = false, features = ["rt", "sync"] }
tracing = "0.1"
