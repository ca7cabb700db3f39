[package]
name = "uhyve_interface"
version = "0.1.0"
edition = "2021"
publish = false

[dependencies]
hermit-abi = "*"
clap = { version = "4", features = ["derive"] }
toml_edit = "*"
