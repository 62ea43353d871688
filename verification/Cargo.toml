[package]
name = "why2"
version = "0.1.0"
edition = "2021"
publish = false

[dependencies]
sha2 = "=0.10.9"
hmac = "=0.12.1"
rand = "=0.10.3"
rand_chacha = "=0.10.0"
subtle = "=2.6.1"
zstd = "=0.13.4"
turbojpeg = "=1.5.1"
p521 = { version = "*", features = ["ecdsa"] }
ml-kem = "*"
