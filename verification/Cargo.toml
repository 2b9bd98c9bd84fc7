[package]
name = "cinny_ptt"
version = "0.1.0"
edition = "2021"
publish = false

[dependencies]
monio = { version = "=0.1.1", default-features = false }
zbus = { version = "=5.19.0", default-features = false, features = ["tokio"] }
tokio = { version = "=1.54.1", features = ["rt"] }
futures-util = "=0.3.34"
