[package]
name = "tg_bot"
version = "0.1.0"
edition = "2021"
publish = false

[dependencies]
teloxide = "=0.17.0"
takecell = "=0.1.1"
tokio = { version = "=1.53.2", features = ["macros", "rt-multi-thread"] }
dotenvy = "=0.15.7"
dptree = "=0.5.1"
log = "=0.4.34"
pretty_env_logger = "=0.5.0"
