[package]
name = "yara_scan"
version = "0.1.0"
edition = "2021"
publish = false

[dependencies]
yara-x = { version = "=1.22.0", default-features = false, features = ["constant-folding", "exact-atoms", "fast-regexp", "console-module", "cuckoo-module", "elf-module", "hash-module", "lnk-module", "math-module", "string-module", "time-module", "vt-module", "zip-module"] }
zip = "=9.0.5"
serde_json = "=1.0.154"
config = { version = "=0.15.27", default-features = false, features = ["yaml"] }
serde = { version = "=1.0.229", features = ["derive"] }
axum = "=0.7.9"
reqwest = { version = "=0.12.28", default-features = false, features = ["rustls-tls"] }
tokio = { version = "=1.54.1", features = ["macros", "rt-multi-thread", "net"] }
tracing = "=0.1.44"
tracing-appender = "=0.2.5"
tracing-subscriber = "=0.3.23"
