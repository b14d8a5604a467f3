[package]
name = "termbridge"
version = "0.1.0"
edition = "2021"
publish = false

[dependencies]
portable-pty = "=0.9.0"
tokio = { version = "=1.53.2", features = ["rt-multi-thread", "macros", "time"] }
warp = { version = "=0.4.3", features = ["server", "websocket"] }
reqwest = { version = "=0.13.5", default-features = false, features = ["json"] }
serde = { version = "=1.0.229", features = ["derive"] }
serde_json = "=1.0.151"
futures-util = "=0.3.34"
