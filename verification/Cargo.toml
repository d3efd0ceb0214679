[package]
name = "frontend_tui"
version = "0.1.0"
edition = "2021"
publish = false

[dependencies]
combine = "=4.6.9"
futures = "=0.3.34"
holo_hash = { version = "=0.0.12", features = ["encoding"] }
holochain_zome_types = "=0.0.17"
proc-macro2 = "=1.0.107"
quote = "=1.0.47"
rmp = "=0.8.10"
scrawl = "=1.1.0"
serde = { version = "1", features = ["derive"] }
syn = { version = "=1.0.109", features = ["full"] }
termion = "=1.5.6"
tokio = { version = "=1.54.1", features = ["full"] }
tui = "=0.16.0"
