[package]
name = "helm2oci"
version = "0.1.0"
edition = "2021"
publish = false

[dependencies]
anyhow = "*"
clap = { version = "*", features = ["derive"] }
flate2 = "*"
openssl = "*"
serde_json = "*"
serde_yml = "*"
tar = "*"
tempfile = "*"
termcolor = "*"
