[package]
name = "burning-pro-server"
version = "0.1.0"
edition = "2021"
publish = false

[dependencies]
actix = "0.13"
actix-web = "4"
actix-web-httpauth = "0.8"
chrono = { version = "0.4", features = ["serde"] }
diesel = { version = "2", features = ["sqlite", "r2d2", "chrono"] }
dotenv = "0.15"
failure = "0.1"
futures = "0.3"
log = "0.4"
pretty_env_logger = "0.5"
r2d2 = "0.8"
serde = { version = "1", features = ["derive"] }
serde_derive = "1"
serde_json = "1"
tera = "1"
