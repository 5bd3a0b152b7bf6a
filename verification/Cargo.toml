[package]
name = "gaveloc"
version = "0.1.0"
edition = "2021"
publish = false

[dependencies]
sha1 = "0.10"
hex = "0.4"
crc32fast = "1"
blowfish = "0.9"
byteorder = "1"
base64 = "0.22"
regex = "1"
shlex = "1"
hostname = "0.4"
whoami = "1"
serde = { version = "1", features = ["derive"] }
serde_json = "1"
bincode = "1"
toml = "0.8"
tokio = { version = "1", features = ["full"] }
reqwest = { version = "0.12", default-features = false, features = ["rustls-tls", "stream"] }
futures-util = "0.3"
keyring = "3"
interprocess = { version = "2", features = ["tokio"] }
directories = "5"
rayon = "1"
anyhow = "1"
tracing = "0.1"
