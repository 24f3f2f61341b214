[package]
name = "probranchinator"
version = "0.1.0"
edition = "2021"
publish = false

[dependencies]
git2 = { version = "*", default-features = false }
clap = { version = "*", features = ["derive"] }
crossterm = "0.25"
ctrlc = "*"
env_logger = "*"
eyre = "*"
indicatif = "*"
log = "*"
serde = { version = "*", features = ["derive"] }
serde_json = "*"
tabled = "*"
tui = { version = "0.19", features = ["crossterm"] }

[dev-dependencies]
tempfile = "*"
