[package]
name = "recent_messages2"
version = "0.1.0"
edition = "2021"
publish = false

[dependencies]
axum = "0.5"
chrono = "=0.4.45"
deadpool-postgres = "0.10"
futures = "0.3"
http = "0.2"
humantime = "=2.4.0"
hyper = { version = "0.14", features = ["server", "tcp", "http1", "http2"] }
hyperlocal = "0.8"
murmur3 = "=0.5.2"
num_cpus = "=1.17.0"
prometheus = "0.13"
rand = "=0.8.8"
refinery = { version = "0.8", features = ["tokio-postgres"] }
reqwest = { version = "0.11", default-features = false, features = ["json", "rustls-tls"] }
rlimit = "0.8"
rustls = "0.20"
serde = { version = "1", features = ["derive"] }
simple-process-stats = "2"
structopt = "0.3"
thiserror = "1"
tokio = { version = "1", features = ["full"] }
tokio-postgres = { version = "0.7", features = ["with-chrono-0_4"] }
tokio-postgres-rustls = "0.9"
tokio-util = "0.7"
toml = "0.5"
tower-http = { version = "0.3", features = ["cors", "fs"] }
tracing = "0.1"
tracing-subscriber = "0.3"
twitch-irc = { version = "=4.1.0", default-features = false, features = ["transport-tcp", "transport-tcp-rustls-webpki-roots"] }
webpki-roots = "0.22"
