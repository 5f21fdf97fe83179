[package]
name = "crud_toy"
version = "0.1.0"
edition = "2021"
publish = false

[dependencies]
mongodb = "=3.9.1"
tokio = { version = "1", features = ["macros", "rt-multi-thread"] }
warp = { version = "*", features = ["server"] }
serde = { version = "1", features = ["derive"] }
chrono = { version = "*", features = ["serde"] }
futures = "*"
async-trait = "*"
log = "*"
pretty_env_logger = "*"
dotenv = "*"
thiserror = "*"
