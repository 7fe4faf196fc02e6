[package]
name = "dhvani"
version = "0.1.0"
edition = "2021"
publish = false

[dependencies]
serde = { version = "=1.0.229", features = ["derive"] }
thiserror = "=2.0.21"
abaco = "=1.1.0"
goonj = { version = "=1.4.3", features = ["dhvani-compat", "wav"] }
garjan = "=1.1.0"
ghurni = "=1.0.0"
nidhi = "=1.1.0"
prani = "=1.1.0"
pipewire = "=0.9.2"
