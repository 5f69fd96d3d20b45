[package]
name = "med_inventory"
version = "0.1.0"
edition = "2021"
publish = false

[dependencies]
bcrypt = "0.15"
mongodb = "2.8"
serde = { version = "1", features = ["derive"] }
futures = "0.3"
dotenv = "0.15"
