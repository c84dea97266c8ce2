[package]
name = "legiscan_relay"
version = "0.1.0"
edition = "2021"
publish = false

[dependencies]
serde_json = "*"
actix-web = { version = "*", default-features = false, features = ["macros"] }
actix-cors = "*"
dotenv = "*"
reqwest = { version = "*", default-features = false }
