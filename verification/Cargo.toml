[package]
name = "math_relay"
version = "0.1.0"
edition = "2021"
publish = false

[dependencies]
serde = { version = "*", features = ["derive"] }
serde_json = "*"
anyhow = "*"
clap = { version = "*", features = ["derive"] }
futures-util = "*"
tokio = { version = "*", features = ["full"] }
tokio-tungstenite = "*"
tungstenite = "*"
speech-dispatcher = "*"
gtk = "0.18"
gdk = "0.18"
gio = "0.18"
glib = "0.18"
