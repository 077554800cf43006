[package]
name = "centrum_launcher"
version = "0.1.0"
edition = "2021"
publish = false

[dependencies]
fuzzy-matcher = "0.3"
regex = "1"
serde = { version = "1", features = ["derive"] }
serde_json = "1"
directories = "*"
gtk4 = "*"
glib = "*"
gio = "*"
