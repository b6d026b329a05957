[package]
name = "slovo"
version = "0.1.0"
edition = "2021"
publish = false

[dependencies]
base64 = "*"
clap = { version = "4", default-features = false, features = ["std", "derive", "env", "help", "usage", "error-context"] }
dotenvy = "*"
futures-util = { version = "*", features = ["sink"] }
google-youtube3 = "*"
kick-api = "*"
poem = { version = "*", features = ["websocket"] }
reqwest = { version = "0.12", default-features = false, features = ["json", "rustls-tls"] }
rootcause = "*"
rustls = { version = "0.23", default-features = false, features = ["ring", "std", "tls12", "logging"] }
serde = { version = "*", features = ["derive"] }
serde_json = "*"
tokio = { version = "*", features = ["full"] }
tracing = "*"
tracing-subscriber = { version = "0.3", default-features = false, features = ["fmt", "std", "ansi"] }
twitch_highway = "*"
uuid = { version = "*", features = ["v4"] }
