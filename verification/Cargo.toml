[package]
name = "diadro"
version = "0.1.0"
edition = "2021"
publish = false

[dependencies]
eframe = { version = "=0.19.0", default-features = false, features = ["default_fonts", "glow"] }
serde = { version = "=1.0.229", features = ["derive"] }
serde_json = "=1.0.154"
chrono = "=0.4.45"
uuid = { version = "=1.29.0", features = ["v4"] }
tracing = "=0.1.44"
tracing-subscriber = "=0.3.23"
thiserror = "=1.0.69"
tokio = { version = "=1.54.1", features = ["rt", "time"] }
actix = "=0.13.5"
actix-web = { version = "=4.18.1", features = ["rustls"] }
actix-web-actors = "=4.3.1"
rustls = "=0.20.9"
rustls-pemfile = "=1.0.4"
brotli = "=3.5.0"
cached = "=0.40.0"
num_cpus = "=1.17.0"
wasm-sockets = "1"
web-sys = { version = "0.3", features = ["Window", "Location"] }
