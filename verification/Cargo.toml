[package]
name = "chat_gateway"
version = "0.1.0"
edition = "2021"
publish = false

[dependencies]
base64 = "0.21"
serde_json = "1"
chrono = "0.4"
serde = { version = "1", features = ["derive"] }
actix-web = { version = "4", default-features = false, features = ["cookies"] }
tera = { version = "1", default-features = false }
reqwest = { version = "0.12", default-features = false, features = ["json"] }
