[package]
name = "udp_server"
version = "1.0.4"
edition = "2021"
publish = false

[dependencies]
async-lock = "3"
chrono = "0.4"
log = "0.4"
num_cpus = "1"
socket2 = { version = "0.6", features = ["all"] }
tokio = { version = "1", features = ["net", "sync", "rt", "rt-multi-thread", "time", "macros"] }
