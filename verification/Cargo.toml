[package]
name = "radi"
version = "0.1.0"
edition = "2021"
publish = false

[dependencies]
anyhow = "1"
chrono = { version = "0.4", default-features = false, features = ["clock"] }
cpal = "0.15"
crossterm = "0.28"
dirs = "6"
mp3-duration = "0.1"
mp3lame-encoder = "0.2"
nnnoiseless = { version = "0.5", default-features = false }
open = "5"
ratatui = { version = "0.29", default-features = false, features = ["crossterm"] }
reqwest = { version = "0.12", default-features = false, features = ["blocking", "json", "rustls-tls"] }
rubato = "0.16"
serde = { version = "1", features = ["derive"] }
serde_json = "1"
throbber-widgets-tui = "0.8"
toml = "0.8"
tui-big-text = "0.7"
tui-popup = "0.6"
