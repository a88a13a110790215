[package]
name = "artsum"
version = "0.1.0"
edition = "2021"
publish = false

[dependencies]
anyhow = "1"
blake2 = "0.10"
clap = { version = "4", features = ["derive"] }
colored = "2"
glob = "0.3"
log = "0.4"
pathdiff = "0.2"
regex = "1"
sha2 = "0.10"
thiserror = "1"
tokio = { version = "1", features = ["full"] }
