[package]
name = "unique_codes"
version = "0.1.0"
edition = "2021"
publish = false

[dependencies]
chrono = "0.4"
lambda_runtime = "0.4"
rand = "0.8"
rusoto_core = { version = "0.48", default-features = false, features = ["rustls"] }
rusoto_dynamodb = { version = "0.48", default-features = false, features = ["rustls"] }
serde = { version = "1", features = ["derive"] }
serde_derive = "1"
serde_json = "1"
tokio = { version = "1", features = ["macros", "rt-multi-thread"] }

[dev-dependencies]
regex = "1"
