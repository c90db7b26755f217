[package]
name = "phoenix_cmc"
version = "0.1.0"
edition = "2021"
publish = false

[dependencies]
im = "15"
argon2 = "0.5"
pwhash = "1"
unicase = "2"
bytestring = "1"
chrono = "0.4"
tokio = { version = "1", features = ["full"] }
arc-swap = "1"
bytes = "1"
indexmap = "2"
anyhow = "1"
log = "0.4"
env_logger = "0.11"
async-trait = "0.1"
async-backtrace = "0.2"
