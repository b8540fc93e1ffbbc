[package]
name = "mod_images"
version = "0.1.0"
edition = "2021"
publish = false

[dependencies]
askama = "0.12"
askama_axum = "0.4"
axum = "0.7"
axum-extra = { version = "0.9", features = ["cookie"] }
ed25519-dalek = "2"
hex = "0.4"
image = { version = "0.25", default-features = false, features = ["jpeg", "png", "webp", "gif"] }
oauth2 = "5"
rand = "0.8"
redis = { version = "0.27", features = ["tokio-comp"] }
reqwest = "0.12"
rust-s3 = "0.35"
serde = { version = "1", features = ["derive"] }
serde_json = "1"
thiserror = "1"
time = "0.3"
tokio = { version = "1", features = ["full"] }
tower-http = { version = "0.6", features = ["compression-full", "fs"] }
tower-sombrero = "*"
tracing = "0.1"
tracing-subscriber = { version = "0.3", features = ["json"] }
twilight-http = "0.16"
twilight-model = "0.16"
twilight-util = { version = "0.16", features = ["builder"] }
twilight-validate = "0.16"
valk-utils = "*"
vss = "*"

[dev-dependencies]
base64 = "0.22"
sha2 = "0.10"
