[package]
name = "corrator"
version = "0.1.0"
edition = "2021"
publish = false

[dependencies]
regex = "1"
chrono = { version = "0.4", default-features = false, features = ["alloc"] }
serde = { version = "1", features = ["derive"] }
serde_json = "1"
reqwest = { version = "0.12", default-features = false, features = ["blocking", "json"] }
toml = "0.8"
clap = { version = "4", features = ["derive"] }
directories = "5"
bonsaidb = { version = "0.5", default-features = false, features = ["local"] }
jsonschema = { version = "0.26", default-features = false }
crossterm = "0.28"
ratatui = "0.28"
