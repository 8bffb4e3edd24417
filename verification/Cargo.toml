[package]
name = "ohos_deviceinfo"
version = "0.1.0"
edition = "2021"
publish = false

[dependencies]
ohos-deviceinfo-sys = "*"
