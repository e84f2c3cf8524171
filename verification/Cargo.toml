[package]
name = "fetra"
version = "0.1.0"
edition = "2021"
publish = false

[dependencies]
anyhow = "=1.0.104"
aya = "=0.14.0"
aya-ebpf = "=0.1.1"
aya-log = "=0.3.0"
hostname = "=0.4.2"
if-addrs = "=0.15.0"
libc = "=0.2.191"
log = "=0.4.34"
metrics = "=0.24.6"
metrics-exporter-prometheus = { version = "=0.18.3", default-features = false, features = ["http-listener"] }
metrics-util = "=0.20.4"
moka = { version = "=0.12.16", features = ["future", "sync"] }
tokio = { version = "=1.54.1", features = ["full"] }
tracing-subscriber = "=0.3.23"

[dev-dependencies]
linux-raw-sys = "=0.12.1"
