[package]
name = "pulsar"
version = "0.1.0"
edition = "2021"
publish = false

[dependencies]
async-trait = "0.1"
chrono = "0.4"
sea-orm-migration = { version = "2", default-features = false }
serde = { version = "1", features = ["derive"] }
