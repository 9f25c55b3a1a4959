[package]
name = "dioxus_bar"
version = "0.1.0"
edition = "2021"
publish = false

[dependencies]
chrono = { version = "0.4", default-features = false, features = ["clock"] }
dioxus = { version = "0.6", default-features = false, features = ["minimal", "document"] }
log = "0.4"
tokio = { version = "1", features = ["full"] }
