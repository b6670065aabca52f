[package]
name = "cam_toolkit"
version = "0.1.0"
edition = "2021"
publish = false

[dependencies]
bytes = "1"
serde = { version = "1", features = ["derive"] }
serde_json = "1"
serialport = { version = "4", default-features = false }
image = { version = "0.25", default-features = false, features = ["jpeg"] }
thiserror = "2"
tokio = { version = "1", features = ["full"] }
tokio-util = { version = "0.7", features = ["codec"] }
futures-util = { version = "0.3", features = ["sink"] }
anyhow = "1"
time = { version = "0.3", features = ["formatting", "local-offset"] }
uuid = { version = "1", features = ["v4"] }
