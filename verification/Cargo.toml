[package]
name = "nu_formatter"
version = "0.1.0"
edition = "2021"
publish = false

[dependencies]
nu-parser = "=0.110.0"
nu-protocol = "=0.110.0"
nu-cmd-lang = "=0.110.0"
nuon = "=0.110.0"
clap = { version = "=4.6.7", features = ["derive"] }
env_logger = "=0.11.11"
ignore = "=0.4.33"
log = "=0.4.34"
nu-ansi-term = "=0.50.3"
rayon = "=1.12.0"
thiserror = "=2.0.21"
