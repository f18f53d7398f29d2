[package]
name = "diglett"
version = "0.1.0"
edition = "2021"
publish = false

[dependencies]
secp256k1 = { version = "*", features = ["rand"] }
openssl = "*"
sha2 = "*"
tokio = { version = "1", features = ["full"] }
clap = { version = "4", features = ["derive"] }
log = "0.4"
simple_logger = "*"
async-trait = "0.1"
thiserror = "*"
