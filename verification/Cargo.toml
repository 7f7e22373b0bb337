[package]
name = "martin"
version = "0.1.0"
edition = "2021"
publish = false

[dependencies]
tilejson = "=0.3.4"
semver = "=1.0.28"
serde = { version = "=1.0.229", features = ["derive"] }
serde_json = "=1.0.154"
serde_yaml = "=0.9.34"
subst = { version = "=0.2.3", features = ["yaml"] }
log = "=0.4.34"
env_logger = "=0.10.2"
clap = { version = "=4.6.7", features = ["derive"] }
sqlx = { version = "=0.7.4", default-features = false, features = ["sqlite", "runtime-tokio"] }
actix-web = "=4.18.1"
actix-cors = "0.7"
async-trait = "0.1"
futures = "=0.3.34"
thiserror = "=1.0.69"
postgres = "0.19"
r2d2 = "0.8"
r2d2_postgres = "0.18"
postgres-openssl = "0.5"
openssl = "0.10"
