[package]
name = "quantum_kem"
version = "0.1.0"
edition = "2021"
publish = false

[dependencies]
hex = "0.4"
pqcrypto-kyber = "*"
pqcrypto-traits = "*"
actix-web = "4"
actix-cors = "*"
serde = { version = "1", features = ["derive"] }
serde_json = "1"
