[package]
name = "nvisy"
version = "0.1.0"
edition = "2021"
publish = false

[dependencies]
bytes = "*"
bzip2 = "*"
flate2 = "*"
hex = "*"
jiff = "*"
sha2 = "*"
tar = "*"
tempfile = "*"
tokio = { version = "*", features = ["fs", "io-util"] }
uuid = { version = "*", features = ["v4"] }
xz2 = "*"
zip = "*"
