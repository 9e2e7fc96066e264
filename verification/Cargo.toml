[package]
name = "play_tracker"
version = "0.1.0"
edition = "2021"
publish = false

[dependencies]
tokio = { version = "*", features = ["macros", "rt-multi-thread", "time"] }
dotenv = "*"
async-trait = "*"
rspotify = "*"
sqlx = { version = "*", features = ["runtime-tokio", "postgres", "time"] }
