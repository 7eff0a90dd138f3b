[package]
name = "ruby_butler"
version = "0.1.0"
edition = "2021"
publish = false

[dependencies]
clap = { version = "4", features = ["derive", "env"] }
colored = "*"
home = "*"
kdl = "*"
regex = "1"
semver = "1"
serde = { version = "1", features = ["derive"] }
toml = "*"
which = "*"
