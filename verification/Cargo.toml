[package]
name = "ldap_listener"
version = "0.1.0"
edition = "2021"
publish = false

[dependencies]
ldap3_proto = "*"
futures = "*"
tokio = { version = "*", features = ["rt-multi-thread", "net", "io-util", "macros", "signal"] }
tokio-util = { version = "*", features = ["codec"] }
