[package]
name = "message_decoder"
version = "0.1.0"
edition = "2021"
publish = false

[dependencies]
csv = "=1.4.0"
eframe = "0.19"
egui_extras = "0.19"
hex = "=0.4.3"
native-dialog = "0.6"
serde = { version = "=1.0.229", features = ["derive"] }
serde_json = "=1.0.154"
