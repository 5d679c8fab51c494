[package]
name = "rust_auth_api"
version = "0.1.0"
edition = "2021"
publish = false

[dependencies]
jsonwebtoken = "=9.3.1"
chrono = { version = "=0.4.45", features = ["serde"] }
serde = { version = "=1.0.229", features = ["derive"] }
serde_json = { version = "=1.0.154", features = ["preserve_order"] }
actix-web = "=4.18.1"
actix-cors = "=0.7.2"
dotenv = "=0.15.0"
env_logger = "=0.11.11"
openssl-probe = "=0.1.6"
sqlx = { version = "=0.9.0", default-features = false, features = ["runtime-tokio", "postgres", "chrono", "uuid", "migrate", "derive"] }
utoipa = { version = "=6.0.0", features = ["actix_extras", "chrono"] }
utoipa-rapidoc = { version = "=7.0.0", features = ["actix-web"] }
utoipa-redoc = { version = "=7.0.0", features = ["actix-web"] }
utoipa-swagger-ui = { version = "=10.0.2", features = ["actix-web", "vendored"] }
validator = { version = "=0.21.0", features = ["derive"] }
