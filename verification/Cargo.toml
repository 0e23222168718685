[package]
name = "jornet"
version = "0.1.0"
edition = "2021"
publish = false

[dependencies]
hmac = "0.12"
sha2 = "0.10"
hex = "0.4"
uuid = { version = "1", features = ["v4", "serde"] }
base64 = "0.21"
time = { version = "0.3", features = ["formatting"] }
biscuit-auth = "2.2"
serde = { version = "1", features = ["derive"] }
serde_json = "1"
serde_dhall = "0.12"
actix-web = "4"
actix-cors = "0.6"
actix-files = "0.6"
actix-web-httpauth = "0.8"
sqlx = { version = "0.6", default-features = false, features = ["runtime-actix-rustls", "postgres", "uuid", "time"] }
tokio = { version = "1", features = ["macros", "rt-multi-thread"] }
reqwest = { version = "0.11", default-features = false, features = ["json", "rustls-tls"] }
clap = { version = "4", features = ["derive"] }
