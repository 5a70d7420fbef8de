[package]
name = "lgtv_manager"
version = "0.1.0"
edition = "2021"
publish = false

[dependencies]
directories = "=6.0.0"
futures = "=0.3.34"
futures-util = "=0.3.34"
log = "=0.4.35"
macaddr = "=1.0.1"
native-tls = "=0.2.18"
pin-utils = "=0.1.1"
rand = "=0.10.3"
rupnp = { version = "=3.0.0", features = ["full_device_spec"] }
rust-fsm = "=0.8.0"
serde = { version = "=1.0.229", features = ["derive"] }
serde_json = "=1.0.154"
surge-ping = "=0.9.1"
tokio = { version = "=1.54.1", features = ["full"] }
tokio-tungstenite = { version = "=0.30.0", features = ["native-tls"] }
tokio-util = { version = "=0.7.20", features = ["rt"] }
tungstenite = "=0.30.0"
url = "=2.5.8"
uuid = { version = "=1.29.0", features = ["v4"] }
wol-rs = "=1.1.0"
