[package]
name = "edge_agent"
version = "0.1.0"
edition = "2021"
publish = false

[dependencies]
aes-gcm = "0.10"
anyhow = "1"
base64 = "0.22"
ctrlc = "3"
hex = "0.4"
hkdf = "0.12"
rand = "0.8"
reqwest = { version = "0.12", default-features = false, features = ["blocking", "json", "rustls-tls"] }
serde = { version = "1", features = ["derive"] }
serde_json = "1"
sha2 = "0.10"
tempfile = "3"
tungstenite = { version = "0.21", features = ["rustls-tls-webpki-roots"] }
uuid = { version = "1", features = ["v4"] }
walkdir = "2"
x25519-dalek = "2"
zip = { version = "0.6", default-features = false, features = ["deflate"] }
