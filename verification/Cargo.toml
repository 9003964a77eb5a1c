[package]
name = "bsdev"
version = "0.1.0"
edition = "2021"
publish = false

[dependencies]
anyhow = "=1.0.104"
clap = { version = "=4.6.7", features = ["derive"] }
directories = "=5.0.1"
hostname = "=0.4.2"
self_update = { version = "=1.3.3", default-features = false, features = ["ureq", "rustls", "progress-bar", "github", "archive-tar", "compression-tar-gz", "archive-zip", "compression-zip-deflate"] }
serde = { version = "=1.0.229", features = ["derive"] }
serde_json = "=1.0.154"
thiserror = "=1.0.69"
