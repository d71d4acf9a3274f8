[package]
name = "session_auth"
version = "0.1.0"
edition = "2021"
publish = false

[dependencies]
bcrypt = "*"
uuid = { version = "*", features = ["v4"] }
cookie = { version = "*", features = ["private"] }
rocket = { version = "*", features = ["secrets"] }
rocket_dyn_templates = { version = "*", features = ["tera"] }
sqlx = { version = "*", default-features = false, features = ["sqlite", "runtime-tokio"] }
serde = { version = "*", features = ["derive"] }
