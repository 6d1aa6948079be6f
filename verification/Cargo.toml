[package]
name = "image_job"
version = "0.1.0"
edition = "2021"
publish = false

[dependencies]
comfyui-rs = "=0.2.0"
dotenv = "=0.15.0"
log = "=0.4.34"
pretty_env_logger = "=0.5.0"
rand = "=0.8.8"
serde_json = "=1.0.154"
takecell = "=0.1.1"
teloxide = { version = "=0.12.2", features = ["macros"] }
tokio = { version = "=1.54.1", features = ["rt-multi-thread", "macros"] }
