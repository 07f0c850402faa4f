[package]
name = "yp_ffi"
version = "0.1.0"
edition = "2021"
publish = false

[dependencies]
image = { version = "0.25", default-features = false, features = ["png", "jpeg", "bmp", "gif"] }
serde = { version = "1", features = ["derive"] }
serde_json = "1"
thiserror = "2"
miette = "7"
clap = { version = "4", features = ["derive"] }
clio = { version = "0.3", features = ["clap-parse"] }
anstyle = "1"
indicatif = "0.17"
libloading = "0.8"
tracing = "0.1"
tracing-subscriber = { version = "0.3", features = ["env-filter", "fmt"] }
