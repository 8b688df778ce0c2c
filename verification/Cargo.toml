[package]
name = "portfolio"
version = "0.1.0"
edition = "2021"
publish = false

[dependencies]
slug = "*"
bcrypt = "*"
chrono = "*"
uuid = { version = "*", features = ["v4"] }
pulldown-cmark = "*"
lettre = { version = "*", default-features = false, features = ["smtp-transport", "builder", "rustls-tls"] }
rusqlite = { version = "*", features = ["bundled"] }
actix-web = "*"
actix-session = { version = "*", features = ["cookie-session"] }
actix-multipart = "*"
actix-files = "*"
tera = "*"
tokio = { version = "*", features = ["rt-multi-thread", "macros"] }
serde = { version = "*", features = ["derive"] }
serde_json = "*"
futures-util = "*"
log = "*"
env_logger = "*"
dotenv = "*"
