[package]
name = "courselend"
version = "0.1.0"
edition = "2021"
publish = false

[dependencies]
chrono = { version = "=0.4.45", features = ["serde"] }
diesel = { version = "=2.3.14", features = ["mysql", "chrono"] }
dotenv = "=0.15.0"
reqwest = "=0.11.27"
rocket = "=0.5.2"
serde = { version = "=1.0.229", features = ["derive"] }
serde_json = "=1.0.154"
sha256 = "=1.6.0"
