[package]
name = "server"
version = "0.1.0"
edition = "2021"
publish = false

[dependencies]
uuid = { version = "=1.29.0", features = ["v4"] }
chrono = "=0.4.45"
rmp = "=0.8.15"
rmpv = "=1.3.1"
rand = "=0.10.3"
jwt = "=0.16.0"
serde = { version = "=1.0.229", features = ["derive"] }
mio = { version = "=1.2.4", features = ["os-poll", "net"] }
hmac = "=0.12.1"
sha2 = "=0.10.9"
