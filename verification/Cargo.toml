[package]
name = "goal_tracker"
version = "0.1.0"
edition = "2021"
publish = false

[dependencies]
axum = "0.7"
axum-extra = { version = "0.9", features = ["cookie"] }
bb8 = "0.8"
bcrypt = "0.15"
diesel = { version = "2.1", default-features = false, features = ["postgres_backend", "uuid", "with-deprecated"] }
diesel-async = { version = "0.4", features = ["postgres", "bb8"] }
dotenv = "0.15"
lettre = { version = "0.11", default-features = false, features = ["builder", "smtp-transport", "tokio1", "tokio1-rustls-tls"] }
log2 = "0.1"
rand = "0.8"
serde = { version = "1", features = ["derive"] }
tokio = { version = "1", features = ["full"] }
tower-http = { version = "0.5", features = ["fs"] }
uuid = { version = "1", features = ["v4", "serde"] }
validator = "0.16"
