[package]
name = "vanity_ssh"
version = "0.1.0"
edition = "2021"
publish = false

[dependencies]
curve25519-dalek = "4"
ed25519-dalek = { version = "2", features = ["hazmat"] }
humantime = "2"
indicatif = "0.17"
rand = "0.8"
regex = "1"
ssh-key = "0.6"
