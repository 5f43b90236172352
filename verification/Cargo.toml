[package]
name = "worldcompute"
version = "0.1.0"
edition = "2021"
publish = false

[dependencies]
base64 = "0.22"
chrono = "0.4"
cid = "0.11"
ed25519-dalek = "2"
hex = "0.4"
hickory-resolver = { version = "0.24", features = ["dns-over-https-rustls"] }
libp2p = { version = "0.54", features = ["gossipsub", "kad", "mdns", "tokio", "request-response", "cbor", "macros", "ed25519"] }
rand = "0.8"
rcgen = { version = "0.13", default-features = false, features = ["ring", "pem"] }
regex-lite = "0.1"
serde = { version = "1", features = ["derive"] }
serde_json = "1"
sha2 = "0.10"
tokio = { version = "1", features = ["sync", "rt", "macros"] }
tracing = "0.1"
tracing-subscriber = { version = "0.3", features = ["json", "env-filter"] }
uuid = { version = "1", features = ["v4"] }
x509-parser = "0.16"

[dev-dependencies]
multihash = "0.19"
