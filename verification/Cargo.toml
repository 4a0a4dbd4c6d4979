[package]
name = "speaker_core"
version = "0.1.0"
edition = "2021"
publish = false

[dependencies]
sha1 = "0.10"
data-encoding = "2"
base64 = "0.22"
crossbeam-channel = "0.5"
urlencoding = "2"
serde = { version = "1", features = ["derive"] }
serde_json = "1"
log = "0.4"
once_cell = "1"
thiserror = "2"
tokio = { version = "1", features = ["rt", "rt-multi-thread", "macros", "signal", "sync", "time"] }
futures-util = "0.3"
env_logger = "0.11"
