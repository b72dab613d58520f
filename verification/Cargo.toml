[package]
name = "uiuapp"
version = "0.1.0"
edition = "2021"
publish = false

[dependencies]
uiua = { version = "=0.16.2", default-features = false, features = ["image", "gif", "audio_encode"] }
dioxus = { version = "=0.7.10" }
dioxus-logger = { version = "=0.7.10" }
tokio = { version = "=1.54.1", default-features = false, features = ["time"] }
base64 = { version = "=0.23.1" }
image = { version = "=0.25.10", default-features = false, features = ["png"] }
