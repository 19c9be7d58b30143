[package]
name = "graphql_orm_ai"
version = "0.1.0"
edition = "2021"
publish = false

[dependencies]
sha2 = "=0.10.9"
hex = "=0.4.3"
serde_json = "=1.0.154"
serde = { version = "=1.0.229", features = ["derive"] }
uuid = { version = "=1.29.0", features = ["v4", "serde"] }
time = "=0.3.55"
async-trait = "=0.1.92"
url = "2"

[dev-dependencies]
uuid = { version = "=1.29.0", features = ["v4"] }
