[package]
name = "imxrt_usbd"
version = "0.1.0"
edition = "2021"
publish = false

[dependencies]
imxrt-ral = { version = "*", features = ["imxrt1062"] }
