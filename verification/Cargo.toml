[package]
name = "dns-lookup-service"
version = "0.1.0"
edition = "2021"
publish = false

[dependencies]
trust-dns = { version = "=0.17.0", default-features = false }
serde = { version = "=1.0.229", features = ["derive"] }
serde_derive = "=1.0.229"
serde_json = "=1.0.154"
toml = "=0.5.11"
argparse = "=0.2.2"
iron = "=0.6.1"
router = "=0.6.0"
log = "=0.4.35"
log4rs = "=1.4.0"
