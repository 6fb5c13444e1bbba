[package]
name = "gui_controller"
version = "0.1.0"
edition = "2021"
publish = false

[dependencies]
anyhow = "=1.0.104"
arboard = { version = "=3.7.0", default-features = false }
clap = { version = "=4.6.7", features = ["derive"] }
futures = "=0.3.34"
native-dialog = "=0.7.0"
rustls = { version = "=0.23.46", default-features = false, features = ["ring", "std"] }
sadness-generator = "=0.7.0"
secrecy = "=0.8.0"
serde = { version = "1", features = ["derive"] }
serde_json = "1"
tauri-runtime = "2"
thiserror = "=1.0.69"
tokio = { version = "=1.54.1", features = ["io-util", "macros", "net", "rt", "rt-multi-thread", "sync", "time"] }
tokio-stream = "=0.1.19"
tracing = "=0.1.44"
tracing-subscriber = { version = "=0.3.23", features = ["env-filter"] }
url = "=2.5.8"
