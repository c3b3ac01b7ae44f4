[package]
name = "rustic_rs"
version = "0.1.0"
edition = "2021"
publish = false

[dependencies]
anyhow = "1"
bytesize = "*"
clap = { version = "4", features = ["derive", "env"] }
conflate = "*"
indicatif = "*"
jiff = "0.2"
libc = "0.2"
log = "0.4"
log4rs = { version = "1", default-features = false, features = ["console_appender", "file_appender", "pattern_encoder", "threshold_filter"] }
rustic_core = "*"
serde = { version = "1", features = ["derive"] }
serde_json = "1"
serde_with = "3"
