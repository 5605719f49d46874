[package]
name = "rylus"
version = "0.1.0"
edition = "2021"
publish = false

[dependencies]
argon2 = "=0.5.3"
rand = "=0.8.8"
flate2 = "=1.1.10"
url = "=2.5.8"
percent-encoding = "=2.3.2"
serde = { version = "=1.0.229", features = ["derive"] }
serde_json = "=1.0.154"
toml = "=0.8.23"
clap = { version = "=4.6.7", features = ["derive"] }
clap_complete = "=4.6.11"
tokio = { version = "=1.54.1", features = ["full"] }
hyper = { version = "=1.12.0", features = ["server", "http1"] }
hyper-util = { version = "=0.1.21", features = ["tokio"] }
http-body-util = "=0.1.5"
tokio-tungstenite = "=0.26.2"
futures-util = "=0.3.34"
rustls = { version = "=0.23.46", default-features = false, features = ["ring", "std", "tls12", "logging"] }
tokio-rustls = { version = "=0.26.6", default-features = false, features = ["ring", "tls12", "logging"] }
rcgen = "=0.13.2"
handlebars = "=6.4.4"
mdns-sd = "=0.13.11"
hostname = "=0.4.2"
dirs = "=6.0.0"
tracing = "=0.1.44"
tracing-subscriber = { version = "=0.3.23", features = ["json"] }
evdev = "=0.13.2"
ffmpeg-sys-next = "=7.1.3"
x11rb = { version = "0.13", features = ["shm", "randr", "xfixes", "composite", "xinput"] }
libc = "0.2"
enigo = "0.2"
