[package]
name = "nest_cli"
version = "0.1.0"
edition = "2021"
publish = false

[dependencies]
dirs = "*"
serde_json = "*"
clap = { version = "*", features = ["derive"] }
tokio = { version = "*", features = ["macros", "rt-multi-thread"] }
yup-oauth2 = "*"
google-smartdevicemanagement1 = "*"
hyper-rustls = "*"
hyper-util = "*"
