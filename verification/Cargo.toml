[package]
name = "translation_api"
version = "0.1.0"
edition = "2021"
publish = false

[dependencies]
chrono = "=0.4.45"
clap = { version = "*", features = ["derive"] }
ctrlc = "*"
md-5 = "=0.11.0"
rand = "=0.10.3"
reqwest = { version = "=0.13.5", default-features = false, features = ["blocking", "form"] }
serde = { version = "*", features = ["derive"] }
serde_json = "=1.0.151"
sha2 = "=0.11.0"
sysexits = "*"
toml = "*"
uuid = { version = "=1.27.0", features = ["v4"] }
