[package]
name = "rauthy_pam_nss"
version = "0.1.0"
edition = "2021"
publish = false

[dependencies]
anyhow = "=1.0.104"
axum = "=0.8.9"
bincode = { version = "=2.0.1", features = ["serde"] }
chrono = { version = "=0.4.45", default-features = false, features = ["now"] }
dotenvy = "=0.15.7"
flume = "=0.11.1"
futures = "=0.3.34"
http-body-util = "=0.1.5"
hyper = { version = "=1.12.0", features = ["client", "http1"] }
hyper-util = { version = "=0.1.21", features = ["tokio"] }
libc = "=0.2.191"
libnss = "=0.9.0"
log = "=0.4.34"
log4rs = { version = "1", default-features = false, features = ["console_appender", "rolling_file_appender", "compound_policy", "fixed_window_roller", "size_trigger", "pattern_encoder"] }
pamsm = { version = "=0.5.5", features = ["libpam"] }
reqwest = { version = "=0.12.28", default-features = false, features = ["json", "blocking", "rustls-tls"] }
serde = { version = "=1.0.229", features = ["derive"] }
syslog = "7"
tokio = { version = "=1.54.1", features = ["rt", "rt-multi-thread", "net", "time", "fs", "sync"] }
toml = "=0.9.12"
url = "=2.5.8"
webauthn-rs = "=0.5.5"
webauthn-rs-core = "=0.5.5"
