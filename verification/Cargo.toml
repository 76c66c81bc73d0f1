[package]
name = "marionette"
version = "0.1.0"
edition = "2021"
publish = false

[dependencies]
serde_json = "1"
serde = { version = "1", features = ["derive"] }
url = "*"
clap = "*"
log = "*"
stderrlog = "*"
env_logger = "*"
dirs = "*"
mktemp = "*"
mozprofile = "*"
mozrunner = "*"
chan-signal = "*"
