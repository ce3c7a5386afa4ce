[package]
name = "fcx"
version = "0.1.0"
edition = "2021"
publish = false

[dependencies]
chacha20poly1305 = "0.10"
pbkdf2 = "0.12"
sha3 = "0.10"
rand = "0.8"
rand_chacha = "0.3"
xxhash-rust = { version = "0.8", features = ["xxh32"] }
clap = { version = "4", features = ["derive"] }
rpassword = "7"
rprompt = "2"
