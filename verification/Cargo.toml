[package]
name = "rustyshim"
version = "0.1.0"
edition = "2021"
publish = false

[dependencies]
rand = "=0.8.8"
tokio = { version = "*", features = ["macros", "rt-multi-thread"] }
tonic = "*"
arrow-flight = "=59.3.0"
arrow-ipc = "=59.3.0"
arrow = "=59.3.0"
datafusion = { version = "=55.1.0", default-features = false }
futures = "*"
bytes = "*"
clap = { version = "*", features = ["derive"] }
serde = { version = "*", features = ["derive"] }
serde_yaml = "*"
rpassword = "*"
tempfile = "*"
