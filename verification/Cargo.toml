[package]
name = "kindle_dash"
version = "1.0.0"
edition = "2021"
publish = false

[dependencies]
anyhow = "=1.0.104"
chrono = "=0.4.45"
chrono-tz = "=0.10.4"
cron-parser = "=0.12.0"
ctrlc = "=3.5.2"
log = "=0.4.35"
simplelog = "=0.12.2"
time = { version = "=0.3.55", features = ["formatting", "macros"] }
toml = { version = "=0.8.23", features = ["preserve_order"] }
ureq = "=3.5.1"
