[package]
name = "ignis_fhir"
version = "0.1.0"
edition = "2021"
publish = false

[dependencies]
nostro2 = "=0.2.7"
serde = { version = "*", features = ["derive"] }
serde_json = "*"
