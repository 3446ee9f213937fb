[package]
name = "rust_web_starter"
version = "0.1.0"
edition = "2021"
publish = false

[dependencies]
time = { version = "0.3", features = ["formatting"] }
serde = { version = "1", features = ["derive"] }
actix-web = "4"
actix-files = "0.6"
actix-web-lab = "0.24"
mongodb = "3"
redis = { version = "0.27", features = ["tokio-comp", "connection-manager"] }
handlebars = { version = "6", features = ["dir_source"] }
log = "0.4"
env_logger = "0.11"
