[package]
name = "now_playing"
version = "0.1.0"
edition = "2021"
publish = false

[dependencies]
base64 = "0.22"
serde = { version = "1", features = ["derive"] }
tauri = { version = "2", default-features = false, features = ["wry"] }
tokio = { version = "1", default-features = false, features = ["rt", "time"] }
windows = { version = "*", features = ["Foundation", "Media_Control", "Storage_Streams"] }
