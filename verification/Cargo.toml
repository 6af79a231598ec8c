[package]
name = "currency_converter"
version = "0.1.0"
edition = "2021"
publish = false

[dependencies]
iced = { version = "0.13", default-features = false, features = ["tiny-skia"] }
reqwest = { version = "0.12", default-features = false, features = ["json", "default-tls"] }
serde = { version = "1", features = ["derive"] }
tokio = { version = "1", features = ["rt-multi-thread"] }
