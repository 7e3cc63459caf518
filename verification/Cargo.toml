[package]
name = "wms_api"
version = "0.1.0"
edition = "2021"
publish = false

[dependencies]
rand = "0.9"
sha3 = "0.10"
hex = "0.4"
time = { version = "0.3", features = ["formatting", "parsing", "macros"] }
sqlx = { version = "0.8", default-features = false, features = ["postgres", "runtime-tokio", "time"] }
tokio = { version = "1", features = ["rt-multi-thread", "macros", "net", "signal", "sync"] }
tokio-tungstenite = "*"
futures-util = "0.3"
http = "1"
log = "0.4"
fern = "0.7"
chrono = "0.4"
dotenvy = "0.15"
lettre = { version = "0.11", default-features = false, features = ["smtp-transport", "builder"] }
serde = { version = "1", features = ["derive"] }
