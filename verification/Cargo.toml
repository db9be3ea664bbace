[package]
name = "tenex_tui"
version = "0.1.0"
edition = "2021"
publish = false

[dependencies]
serde_json = "=1.0.154"
png = "=0.18.1"
arboard = "=3.7.0"
clap = { version = "=4.6.7", features = ["derive"] }
nostr = "*"
