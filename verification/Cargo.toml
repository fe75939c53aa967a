[package]
name = "plantuml"
version = "0.1.0"
edition = "2021"
publish = false

[dependencies]
zip = { version = "=8.6.0", default-features = false, features = ["deflate"] }
dirs = "=7.0.0"
duct = "=1.1.2"
os_pipe = "*"
tempfile = "*"
current_platform = "*"
once_cell = "=1.21.4"
thiserror = "=2.0.21"
flate2 = "=1.1.10"
tar = "=0.4.46"

[dev-dependencies]
fs-err = "=3.3.2"
