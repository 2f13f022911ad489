[package]
name = "sbfcam"
version = "0.1.0"
edition = "2021"
publish = false

[dependencies]
chrono = "0.4"
dotenv = "0.15"
enigo = "0.1"
reqwest = { version = "0.11", default-features = false, features = ["json", "rustls-tls"] }
serde = { version = "1", features = ["derive"] }
serde_json = "1"
simple-websockets = "0.1"
tokio = { version = "1", features = ["full"] }
twitch-irc = { version = "5", default-features = false, features = ["transport-tcp", "transport-tcp-rustls-webpki-roots"] }
winapi = { version = "0.3", features = ["winuser", "sysinfoapi", "windef"] }
windows-win = "2"
