[package]
name = "imposter"
version = "0.1.0"
edition = "2021"
publish = false

[dependencies]
adblock = { version = "=0.13.3", default-features = false, features = ["embedded-domain-resolver", "full-regex-handling"] }
httparse = "=1.10.1"
base64 = "=0.22.1"
async-std = "=1.13.2"
async-io = "=2.6.0"
socks = "=0.3.4"
url = "=2.5.8"
clap = { version = "=4.6.7", features = ["derive"] }
env_logger = "=0.11.11"
log = "=0.4.34"
ureq = { version = "=2.12.1", features = ["native-tls"] }
native-tls = "=0.2.18"
futures-lite = "=2.6.1"
