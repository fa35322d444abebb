[package]
name = "rsession"
version = "0.1.0"
edition = "2021"
publish = false

[dependencies]
rand = "=0.9.5"
uuid = { version = "=1.27.0", features = ["v4", "v7"] }
sha256 = "=1.6.0"
serde = "1"
serde_json = "=1.0.151"
time = "=0.3.55"
cookie = "=0.18.2"
actix-web = { version = "=4.15.0", default-features = false }
async-trait = "=0.1.92"
deadpool-redis = { version = "=0.23.1", features = ["cluster"] }
