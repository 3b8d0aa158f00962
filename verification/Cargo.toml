[package]
name = "zongflow"
version = "0.1.0"
edition = "2021"
publish = false

[dependencies]
gettext-rs = "=0.7.7"
chrono = "=0.4.45"
rusqlite = "=0.41.1"
dirs = "=7.0.0"
toml = "=1.1.8"
serde = { version = "=1.0.229", features = ["derive"] }
anyhow = "=1.0.104"
tracing = "=0.1.44"
tracing-subscriber = { version = "=0.3.23", features = ["env-filter"] }
gtk4 = "=0.11.5"
libadwaita = { version = "=0.9.2", features = ["v1_7"] }
glib = "=0.22.10"
gio = "=0.22.10"
tempfile = "=3.27.0"
