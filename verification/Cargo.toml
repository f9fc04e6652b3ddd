[package]
name = "stream_cave"
version = "0.1.0"
edition = "2021"
publish = false

[dependencies]
clap = { version = "=4.6.7", features = ["derive"] }
directories = "=6.0.0"
futures-util = "=0.3.34"
native-tls = "=0.2.18"
percent-encoding = "=2.3.2"
reqwest = { version = "=0.13.5", features = ["json", "query"] }
rpassword = "=7.5.4"
serde = { version = "=1.0.229", features = ["derive"] }
serde_json = "=1.0.154"
tokio = { version = "=1.54.1", features = ["full"] }
tokio-tungstenite = { version = "=0.30.0", features = ["native-tls"] }
twitch_oauth2 = { version = "=0.17.1", features = ["reqwest"] }
url = "=2.5.8"
