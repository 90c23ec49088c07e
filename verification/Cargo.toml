[package]
name = "cliplink"
version = "0.1.0"
edition = "2021"
publish = false

[dependencies]
arboard = { version = "3.6", default-features = false }
getrandom = "0.2"
hostname = "0.4"
serde = { version = "1", features = ["derive"] }
serde_json = "1"
sha2 = "0.10"
tokio = { version = "1", features = ["io-util", "macros", "net", "rt-multi-thread", "sync", "time"] }
tokio-util = "0.7"
tracing = "0.1"
tracing-subscriber = { version = "0.3", features = ["env-filter"] }
uuid = { version = "1", features = ["v4"] }
winapi = { version = "0.3", features = ["errhandlingapi", "iphlpapi", "iptypes", "synchapi", "winbase", "winerror", "winsock2", "winuser"] }
