[package]
name = "arpad_rust"
version = "0.1.0"
edition = "2021"
publish = false

[dependencies]
uuid = { version = "1", features = ["v4", "v7"] }
helgoboss-midi = "*"
midi-msg = "*"
crossbeam-channel = "0.5"
midir = "*"
rosc = "*"
clap = { version = "4", features = ["derive"] }
serde_json = "1"
reqwest = { version = "*", default-features = false, features = ["blocking"] }
