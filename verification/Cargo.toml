[package]
name = "course_sniper"
version = "0.1.0"
edition = "2021"
publish = false

[dependencies]
async-std = { version = "=1.13.2", features = ["attributes"] }
chromiumoxide = "=0.7.0"
chrono = "=0.4.45"
clap = { version = "=4.6.7", features = ["derive"] }
futures = "=0.3.34"
indicatif = "=0.18.6"
inquire = "=0.9.4"
