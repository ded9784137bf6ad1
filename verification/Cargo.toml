[package]
name = "bearer_auth"
version = "0.1.0"
edition = "2021"
publish = false

[dependencies]
hmac = "0.12"
sha2 = "0.10"
serde = { version = "1", features = ["derive"] }
log = "0.4"
actix-web = "4"
sea-orm = { version = "*", default-features = false, features = ["macros"] }
