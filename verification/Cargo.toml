[package]
name = "sahih"
version = "0.1.0"
edition = "2021"
publish = false

[dependencies]
indexmap = "*"
clap = "3"
log = "*"
openapiv3 = "*"
pretty_env_logger = "*"
serde = "*"
serde_derive = "*"
serde_json = "*"
termcolor = "*"
