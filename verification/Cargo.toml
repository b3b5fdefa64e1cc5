[package]
name = "pnt"
version = "0.1.0"
edition = "2021"
publish = false

[dependencies]
aes-gcm = "*"
argon2 = "*"
base64ct = { version = "*", features = ["alloc"] }
chrono = "*"
clap = { version = "*", features = ["derive"] }
dirs = "*"
rpassword = "*"
rusqlite = { version = "*", features = ["bundled"] }
serde = { version = "*", features = ["derive"] }
toml = "*"
