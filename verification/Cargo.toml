[package]
name = "new_user_report"
version = "0.1.0"
edition = "2021"
publish = false

[dependencies]
chrono = "0.4"
clap = { version = "4", default-features = false, features = ["std", "derive", "help", "usage", "error-context"] }
solana-sdk = "=1.18.26"
thiserror = "1"
tokio = { version = "1", features = ["macros", "rt-multi-thread"] }
