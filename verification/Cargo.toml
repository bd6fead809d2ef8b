[package]
name = "swapbytes"
version = "0.1.0"
edition = "2021"
publish = false

[dependencies]
serde = { version = "1", features = ["derive"] }
serde_cbor = "0.11"
libp2p = { version = "0.54", features = ["tokio", "tcp", "quic", "noise", "yamux", "mdns", "gossipsub", "kad", "request-response", "cbor", "rendezvous", "identify", "ping", "macros", "ed25519"] }
libp2p-request-response = "0.27"
tokio = { version = "1", features = ["full"] }
futures = "0.3"
ratatui = "0.29"
tui-big-text = "0.7"
strum = "0.26"
strum_macros = "0.26"
log = "0.4"
fern = "0.6"
chrono = "0.4"
