[package]
name = "tess"
version = "0.1.0"
edition = "2021"
publish = false

[dependencies]
dotenv = "*"
egg-mode = "*"
tokio = { version = "1", features = ["macros", "rt-multi-thread"] }
