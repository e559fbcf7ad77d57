[package]
name = "authkit"
version = "0.1.0"
edition = "2021"
publish = false

[dependencies]
email_address = "0.2"
base64 = "0.22"
sha2 = "0.10"
rand = "0.8"
rand_core = { version = "0.6", features = ["getrandom"] }
uuid = { version = "1", features = ["v4"] }
chrono = { version = "0.4", default-features = false, features = ["clock", "std"] }
jsonwebtoken = "9"
argon2 = { version = "0.5", features = ["std"] }
bcrypt = "*"
blake3 = { version = "1", features = ["pure"] }
serde = { version = "1", features = ["derive"] }
serde_json = "1"
thiserror = "2"
dotenvy = "0.15"
tokio = { version = "1", features = ["rt"] }
async-trait = "0.1"
tracing = "0.1"
axum = { version = "0.7", default-features = false }
sqlx = { version = "0.8", default-features = false, features = ["postgres", "runtime-tokio", "chrono", "uuid", "migrate"] }
fred = "10"
