[package]
name = "git-transport"
version = "0.1.0"
edition = "2021"
publish = false

[dependencies]
git-packetline = { version = "*", features = ["blocking-io"] }
btoi = "*"
bstr = "*"
thiserror = "*"
serde = { version = "*", features = ["derive"] }
