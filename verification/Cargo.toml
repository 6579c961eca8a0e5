[package]
name = "touch_relay"
version = "0.1.0"
edition = "2021"
publish = false

[dependencies]
serde_json = "=1.0.151"
axum = { version = "=0.8.9", features = ["ws"] }
tokio = { version = "=1.53.2", features = ["macros", "net", "rt-multi-thread", "sync", "time"] }
enigo = "=0.2.1"
local-ip-address = "=0.6.13"
open = "=5.4.4"
