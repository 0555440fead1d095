[package]
name = "jpeg2000_decoder"
version = "0.1.0"
edition = "2021"
publish = false

[dependencies]
ureq = "2"
jpeg2k = { version = "*", features = ["image"] }
image = "*"
anyhow = "*"
argparse = "*"
