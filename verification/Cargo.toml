[package]
name = "duel_bot"
version = "0.1.0"
edition = "2021"
publish = false

[dependencies]
anyhow = "1"
bigdecimal = "0.4"
chrono = "0.4"
diesel = { version = "2", features = ["postgres", "chrono"] }
dotenv = "0.15"
log = "0.4"
rand = "0.8"
tmi = "*"
tokio = { version = "1", features = ["macros", "rt-multi-thread", "signal"] }
