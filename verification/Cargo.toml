[package]
name = "scaffold"
version = "0.1.0"
edition = "2021"
publish = false

[dependencies]
syn = { version = "2", features = ["full"] }
quote = "1"
proc-macro2 = { version = "1", features = ["span-locations"] }
regex = "1"
serde_yml = "*"
minijinja = "2"
clap = "4"
serde = { version = "1", features = ["derive"] }
walkdir = "2"
