[package]
name = "qr_checkin"
version = "0.1.0"
edition = "2021"
publish = false

[dependencies]
bcrypt = "=0.19.3"
chrono = "=0.4.45"
ntex = { version = "=3.12.3", features = ["tokio"] }
ntex-files = "=3.2.0"
ntex-session = "=3.3.0"
password-generator = "=0.1.0"
serde = { version = "*", features = ["derive"] }
serde_json = "*"
tokio = { version = "*", features = ["sync"] }
