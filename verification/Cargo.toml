[package]
name = "matrix_sed"
version = "0.1.0"
edition = "2021"
publish = false

[dependencies]
anyhow = "1"
clap = { version = "4", features = ["derive", "env"] }
clap-verbosity-flag = "2"
dirs = "5"
matrix-sdk = { version = "0.9", default-features = false, features = ["sqlite", "native-tls"] }
rand = "0.8"
rpassword = "7"
sedregex = "0.2"
serde = { version = "1", features = ["derive"] }
serde_json = "1"
similar = "2"
tokio = { version = "1", features = ["macros", "rt", "fs", "time"] }
tracing = "0.1"
tracing-log = "0.2"
tracing-subscriber = { version = "0.3", features = ["env-filter"] }

[dev-dependencies]
regex = "1"
