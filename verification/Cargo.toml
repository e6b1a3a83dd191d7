[package]
name = "bloop_box"
version = "0.1.0"
edition = "2021"
publish = false

[dependencies]
anyhow = "1"
async-trait = "0.1"
aw2013 = "*"
byteorder = "=1.5.0"
directories = "*"
gpiocdev = { version = "*", features = ["async_tokio"] }
hex = "=0.4.3"
linux-embedded-hal = "*"
local-ip-address = "*"
mfrc522 = "*"
rand = "0.9"
rand_distr = "0.5"
regex = "1"
rodio = { version = "0.20", default-features = false, features = ["symphonia-mp3"] }
rustls = { version = "0.23", default-features = false, features = ["ring", "std", "tls12", "logging"] }
rustls-native-certs = "0.8"
serde = { version = "1", features = ["derive"] }
serde_json = "=1.0.154"
thiserror = "2"
tokio = { version = "1", features = ["full"] }
tokio-graceful-shutdown = "0.16"
tokio-io-timeout = "1"
tokio-rustls = { version = "0.26", default-features = false, features = ["ring", "tls12", "logging"] }
tokio-util = "0.7"
toml = "0.8"
tracing = "0.1"
tracing-subscriber = { version = "0.3", features = ["env-filter"] }
uuid = "1"
webpki-roots = "*"
