[package]
name = "vdfs4_inspect"
version = "0.1.0"
edition = "2021"
publish = false

[dependencies]
binrw = "*"
clap = { version = "4", features = ["derive"] }
