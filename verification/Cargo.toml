[package]
name = "circle-to-search-pc"
version = "0.1.0"
edition = "2021"
publish = false

[dependencies]
anyhow = "*"
arboard = { version = "*", default-features = false }
async-trait = "*"
auto-launch = "*"
base64 = "*"
dirs = "*"
env_logger = "*"
futures = "*"
image = { version = "*", default-features = false, features = ["png"] }
log = "*"
open = "*"
reqwest = { version = "*", default-features = false, features = ["multipart", "json"] }
serde = { version = "*", features = ["derive"] }
serde_json = "*"
sysinfo = "*"
tokio = { version = "*", features = ["rt-multi-thread", "macros", "time", "fs"] }
urlencoding = "*"
uuid = { version = "*", features = ["v4"] }
