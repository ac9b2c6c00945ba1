[package]
name = "effie"
version = "0.1.0"
edition = "2021"
publish = false

[dependencies]
itoa = "=1.0.18"
r-efi = "=7.1.0"

[dev-dependencies]
uguid = "=2.2.1"
linux-raw-sys = { version = "=0.12.1", features = ["bootparam"] }
