[package]
name = "koco"
version = "0.1.0"
edition = "2021"
publish = false

[dependencies]
serde_json = "1"
serde = { version = "1", features = ["derive"] }
toml = "*"
dirs = "*"
log = "0.4"
reqwest = { version = "*", default-features = false, features = ["blocking", "json"] }
tokio = { version = "1", features = ["rt-multi-thread", "time"] }
tokio-tungstenite = "*"
futures-util = { version = "0.3", features = ["sink"] }
eframe = { version = "*", default-features = false, features = ["glow", "default_fonts", "x11"] }
egui = "*"
egui_material_icons = "*"
