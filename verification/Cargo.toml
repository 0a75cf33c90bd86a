[package]
name = "passhive"
version = "0.1.0"
edition = "2021"
publish = false

[dependencies]
argon2 = "0.5"
chacha20poly1305 = "0.10"
rand_core = { version = "0.9", features = ["os_rng"] }
serde_json = { version = "1", features = ["preserve_order"] }
rusqlite = { version = "*", features = ["bundled"] }
colored = "*"
crossterm = "*"
indicatif = "*"
rpassword = "*"
unicode-width = "*"
