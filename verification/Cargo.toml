[package]
name = "hmi_server"
version = "0.1.0"
edition = "2021"
publish = false

[dependencies]
rand = "=0.9.5"
pwhash = "=1.0.0"
serde = { version = "=1.0.229", features = ["derive"] }
serde_json = "=1.0.154"
config = "=0.15.27"
log = "=0.4.35"
fern = { version = "=0.7.1", features = ["colored"] }
chrono = "=0.4.45"
roxmltree = "=0.21.2"
tokio = { version = "=1.54.1", features = ["full"] }
async-nats = "=0.33.0"
prost = "=0.14.4"
uuid = { version = "=1.29.0", features = ["v4"] }
futures = "=0.3.34"
bytes = "=1.12.1"
tokio-stream = "=0.1.19"
warp = { version = "=0.3.7", features = ["tls"] }
jsonwebtoken = "=9.3.1"
reqwest = { version = "=0.12.4", default-features = false, features = ["json", "rustls-tls"] }
alcoholic_jwt = "=10039.0.0"
openidconnect = "4"
