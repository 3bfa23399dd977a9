[package]
name = "wispr"
version = "0.1.0"
edition = "2021"
publish = false

[dependencies]
anyhow = "1"
chrono = "0.4"
clap = { version = "4", features = ["derive"] }
ctrlc = "3"
directories = "5"
dirs = "5"
gdk = "0.18"
glib = "0.18"
gtk = "0.18"
hound = "3"
lazy_static = "1"
log = "0.4"
log4rs = "1"
regex = "1"
reqwest = { version = "0.12", features = ["blocking", "json", "multipart"] }
serde = { version = "1", features = ["derive"] }
serde_json = "1"
toml = "0.8"
