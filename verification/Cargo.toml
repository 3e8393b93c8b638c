[package]
name = "marquee_manager"
version = "0.1.0"
edition = "2021"
publish = false

[dependencies]
url = "2"
regex = "1"
log = "0.4"
simplelog = "0.12"
notify = "6"
rdev = "0.5"
serde = { version = "1", features = ["derive"] }
serde_ini = "0.2"
serde_json = "1"
quick-xml = { version = "*", features = ["serialize"] }
glob = "0.3"
reqwest = { version = "0.11", features = ["json", "stream"] }
tokio = { version = "1", features = ["full"] }
tokio-tungstenite = "*"
futures-util = "0.3"
clap = { version = "4", features = ["derive"] }
winreg = "*"
