[package]
name = "taskmaster"
version = "0.4.1"
edition = "2021"
publish = false

[dependencies]
dotenv = "0.15"
image = { version = "0.25", default-features = false, features = ["jpeg", "png"] }
rand = "0.9"
reqwest = { version = "0.12", features = ["json"] }
serde = { version = "1", features = ["derive"] }
serde_json = "1"
tokio = { version = "1", features = ["macros", "rt-multi-thread", "time"] }
webp = "0.3"
