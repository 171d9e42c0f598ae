[package]
name = "plume_core"
version = "0.1.0"
edition = "2021"
publish = false

[dependencies]
apple-codesign = { version = "=0.29.0", default-features = false }
x509-certificate = "=0.24.0"
pem = "=3.0.6"
plist = "=1.10.3"
once_cell = "=1.21.4"
thiserror = "=2.0.21"
