[package]
name = "midi_hub"
version = "0.1.0"
edition = "2021"
publish = false

[dependencies]
base64 = "0.13"
dialoguer = "0.10"
futures-util = "0.3"
jpeg-decoder = "0.3"
open = "3"
portmidi = "0.3"
querystring = "1.1"
reqwest = { version = "0.11", features = ["json"] }
serde = { version = "1", features = ["derive"] }
serde_json = "1"
signal-hook = "0.3"
tokio = { version = "1", features = ["full"] }
toml = "0.5"
warp = "0.3"
