[package]
name = "readability_js"
version = "0.1.0"
edition = "2021"
publish = false

[dependencies]
clap = { version = "4", features = ["derive"] }
color-eyre = "0.6"
html2md = "0.2"
rquickjs = "*"
serde = { version = "1", features = ["derive"] }
thiserror = "*"
ureq = "3"
url = "2"
