[package]
name = "nexus_actor"
version = "0.1.0"
edition = "2021"
publish = false

[dependencies]
async-trait = "0.1"
backtrace = "0.3"
futures = "0.3"
once_cell = "1"
prost = "0.13"
static_assertions = "1"
tokio = { version = "1", default-features = false, features = ["sync", "time", "rt", "rt-multi-thread", "macros"] }
tracing = "0.1"
uuid = { version = "1", features = ["v4"] }
