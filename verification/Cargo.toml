[package]
name = "waqf_satellite"
version = "0.1.0"
edition = "2021"
publish = false

[dependencies]
candid = "*"
ic-cdk = "*"
junobuild-macros = "*"
junobuild-satellite = "*"
junobuild-utils = "*"
serde = { version = "1", features = ["derive"] }
