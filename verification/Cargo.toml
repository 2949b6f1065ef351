[package]
name = "leafwing_manifest"
version = "0.3.0"
edition = "2021"
publish = false

[dependencies]
bevy = { version = "=0.15.3", default-features = false, features = ["bevy_asset", "bevy_state"] }
bevy_common_assets = { version = "=0.12.0", default-features = false, features = ["ron", "json", "yaml", "toml", "xml", "csv", "msgpack"] }
serde = { version = "=1.0.229", features = ["derive"] }
thiserror = "=1.0.69"

[dev-dependencies]
serde_json = "=1.0.154"
