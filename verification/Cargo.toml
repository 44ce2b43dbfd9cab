[package]
name = "registry_log"
version = "0.1.0"
edition = "2021"
publish = false

[dependencies]
warg-crypto = "=0.10.0"
warg-protocol = "=0.10.0"
warg-transparency = "=0.10.0"
warg-protobuf = "=0.10.0"
prost = "=0.12.6"
semver = "=1.0.28"
base64 = "=0.21.7"
p256 = "=0.13.2"
hex = "=0.4.3"
serde = { version = "1", features = ["derive"] }
thiserror = "1"
