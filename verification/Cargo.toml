[package]
name = "escpos_decoder"
version = "0.1.0"
edition = "2021"
publish = false

[dependencies]
async-std = "1"
serde = { version = "1", features = ["derive"] }
serialport = { version = "4", default-features = false }
tokio = { version = "1", features = ["macros", "rt-multi-thread"] }
tokio-serial = "5"
toml = "0.8"
