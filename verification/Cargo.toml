[package]
name = "gemini_bridge"
version = "0.1.0"
edition = "2021"
publish = false

[dependencies]
base64 = "0.22"
image = { version = "0.25", default-features = false, features = ["png", "jpeg", "gif", "bmp", "webp", "tiff", "ico", "tga"] }
serde_json = "1"
reqwest = { version = "0.12", default-features = false, features = ["json", "default-tls"] }
tokio = { version = "1", features = ["rt-multi-thread"] }
eframe = { version = "*", default-features = false, features = ["default_fonts", "glow", "x11"] }
egui = "*"
egui_commonmark = { version = "*", default-features = false, features = ["pulldown_cmark"] }
arboard = "3"
dotenv = "0.15"
