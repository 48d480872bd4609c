[package]
name = "botcore"
version = "0.1.0"
edition = "2021"
publish = false

[dependencies]
regex = "1"
poise = "0.6"
serenity = "0.12"
tokio = { version = "1", features = ["macros", "rt-multi-thread", "time", "sync"] }
chrono = "0.4"
dotenv = "0.15"
rust-i18n = "3"
strum = "0.26"
strum_macros = "0.26"
