[package]
name = "nemo_relay_callbacks"
version = "0.1.0"
edition = "2021"
publish = false

[dependencies]
libc = "=0.2.191"
log = { version = "=0.4.35", features = ["kv"] }
napi = { version = "=2.16.17", default-features = false, features = ["napi6", "serde-json", "tokio_rt"] }
serde = { version = "=1.0.229", features = ["derive"] }
serde_json = { version = "=1.0.154", features = ["float_roundtrip", "unbounded_depth"] }
tokio = { version = "=1.54.1", features = ["rt", "rt-multi-thread", "sync", "macros"] }
tokio-stream = "=0.1.19"
