[package]
name = "portfolio"
version = "0.1.0"
edition = "2021"
publish = false

[dependencies]
actix-web = { version = "4", default-features = false, features = ["macros", "cookies", "secure-cookies"] }
actix-identity = "0.8"
actix-session = { version = "0.10", features = ["cookie-session"] }
actix-multipart = { version = "0.7", default-features = false }
actix-files = "0.6"
tera = { version = "1", default-features = false }
rusqlite = "*"
serde = { version = "1", features = ["derive"] }
serde_json = "1"
nanoid = "0.4"
futures-util = "0.3"
thiserror = "*"
time = "0.3"
