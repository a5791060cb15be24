[package]
name = "ldap_exporter"
version = "0.1.0"
edition = "2021"
publish = false

[dependencies]
chrono = "0.4"
convert_case = "*"
env_logger = "*"
ldap3 = { version = "*", default-features = false }
log = "0.4"
tokio = { version = "1", features = ["macros", "rt-multi-thread", "time"] }
warp = "0.3"
