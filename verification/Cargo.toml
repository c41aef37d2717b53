[package]
name = "encryption"
version = "0.1.0"
edition = "2021"
publish = false

[dependencies]
argon2 = "0.5"
chacha20poly1305 = "0.10"
sha2 = "0.10"
sha3 = "0.10"
zeroize = "1"
eframe = { version = "0.29", default-features = false, features = ["default_fonts", "glow", "x11"] }
rfd = { version = "0.15", default-features = false, features = ["xdg-portal", "tokio"] }
num-format = "0.4"

[dev-dependencies]
bincode = "1.3"
