[package]
name = "estradiol_soundcloud"
version = "0.1.0"
edition = "2021"
publish = false

[dependencies]
regex = "1"
serde_json = "1"
serde = { version = "1", features = ["derive"] }
ureq = { version = "2", features = ["json"] }
once_cell = "1"
thiserror = "1"
lru = "0.12"
discord-rich-presence = "0.2"
