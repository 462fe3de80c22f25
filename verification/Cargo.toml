[package]
name = "xtv"
version = "0.1.0"
edition = "2021"
publish = false

[dependencies]
actix-web = { version = "4", default-features = false, features = ["macros"] }
base64 = "0.22"
chrono = "0.4"
clap = { version = "4", features = ["derive"] }
convert_case = "0.6"
home = "0.5"
itertools = "0.13"
oauth2 = { version = "4", features = ["reqwest"] }
open = "5"
parking_lot = "0.12"
rand = "0.8"
reqwest = { version = "0.11", default-features = false, features = ["json"] }
serde = { version = "1", features = ["derive"] }
serde_json = "1"
tokio = { version = "1", features = ["macros", "rt-multi-thread"] }
toml = "0.8"
