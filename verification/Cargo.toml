[package]
name = "app_lemonator"
version = "0.1.0"
edition = "2021"
publish = false

[dependencies]
serde_json = "*"
plist = "*"
powershell_script = "*"
walkdir = "*"
chrono = "*"
clap = { version = "*", features = ["derive"] }
serde = { version = "*", features = ["derive"] }
sqlx = { version = "*", features = ["runtime-tokio", "sqlite", "chrono"] }
tokio = { version = "*", features = ["rt-multi-thread"] }
dialoguer = "*"
tabled = "*"
dirs = "*"
uuid = { version = "*", features = ["v4"] }
log = "*"
log4rs = "*"
