[package]
name = "qna"
version = "0.1.0"
edition = "2021"
publish = false

[dependencies]
rust-argon2 = "=3.0.0"
rand = "=0.10.3"
pasetors = "=0.8.1"
chrono = "=0.4.45"
serde = { version = "=1.0.229", features = ["derive"] }
serde_json = "=1.0.151"
reqwest = { version = "=0.13.5", default-features = false, features = ["json"] }
warp = { version = "=0.4.3", features = ["server"] }
tokio = { version = "=1.53.2", features = ["macros", "rt-multi-thread", "sync", "time"] }
clap = { version = "=4.6.7", features = ["derive"] }
dotenv = "=0.15.0"
