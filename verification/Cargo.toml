[package]
name = "rusted_bridge"
version = "0.1.0"
edition = "2021"
publish = false

[dependencies]
ethers = { version = "2.0", default-features = false, features = ["ws"] }
tokio = { version = "1", features = ["macros", "rt-multi-thread", "signal", "sync", "time"] }
tracing = "0.1"
tracing-subscriber = "0.3"
dotenv = "0.15"
serde = { version = "1", features = ["derive"] }
thiserror = "1"
