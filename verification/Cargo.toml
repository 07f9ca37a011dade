[package]
name = "stellar"
version = "0.1.0"
edition = "2021"
publish = false

[dependencies]
unicode-xid = "*"
hashbrown = "*"
codespan-reporting = "*"
termcolor = "*"
clap = { version = "*", features = ["derive"] }
serde = { version = "*", features = ["derive"] }
serde_json = "*"
toml = "*"
toml_edit = { version = "*", features = ["serde"] }
serde_ignored = "*"
walkdir = "*"
