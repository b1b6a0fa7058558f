[package]
name = "aegis_daemon"
version = "0.1.0"
edition = "2021"
publish = false

[dependencies]
anyhow = "=1.0.104"
async-stream = "0.3"
async-stripe = { version = "=1.0.0-rc.10", default-features = false, features = ["rustls-tls-webpki-roots", "rustls-ring"] }
async-stripe-billing = { version = "=1.0.0-rc.10", features = ["billing_portal_session", "invoice", "subscription"] }
async-stripe-checkout = { version = "=1.0.0-rc.10", features = ["checkout_session"] }
async-stripe-core = { version = "=1.0.0-rc.10", features = ["customer"] }
async-stripe-product = { version = "=1.0.0-rc.10", features = ["price", "product"] }
async-trait = "0.1"
axum = { version = "=0.8.9", features = ["multipart"] }
base64 = "=0.22.1"
chrono = "=0.4.45"
colored = "=2.2.0"
ed25519-dalek = "=2.2.0"
futures = "=0.3.34"
hex = "=0.4.3"
hmac = "=0.12.1"
infer = "=0.22.0"
libc = "=0.2.191"
percent-encoding = "=2.3.2"
rand = "=0.9.5"
reqwest = { version = "=0.12.28", default-features = false, features = ["json", "stream"] }
serde = { version = "=1.0.229", features = ["derive"] }
serde_json = "=1.0.154"
sha2 = "=0.10.9"
subtle = "=2.6.1"
tokio = { version = "=1.54.1", features = ["rt-multi-thread", "macros", "time", "fs", "sync"] }
tokio-stream = "0.1"
tracing = "=0.1.44"
uuid = { version = "=1.29.0", features = ["serde", "v4"] }
