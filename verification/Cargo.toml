[package]
name = "cargo_supply_chain"
version = "0.3.3"
edition = "2021"
publish = false

[dependencies]
anyhow = "1"
bpaf = { version = "0.9", features = ["derive"] }
cargo_metadata = "0.18"
csv = "1"
directories-next = "2"
flate2 = "1"
humantime = "2"
humantime-serde = "1"
indicatif = "0.17"
serde = { version = "1", features = ["derive"] }
serde_json = "1"
tar = "0.4"
ureq = { version = "2", features = ["json"] }
