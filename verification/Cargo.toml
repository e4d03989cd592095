[package]
name = "cerebrum"
version = "0.1.0"
edition = "2021"
publish = false

[dependencies]
hmac = "=0.13.0"
serde = { version = "=1.0.229", features = ["derive"] }
serde_json = "=1.0.151"
sha2 = "=0.11.0"
tokio = { version = "=1.53.2", features = ["macros", "rt-multi-thread", "sync", "time"] }
warp = { version = "=0.4.3", features = ["server"] }
