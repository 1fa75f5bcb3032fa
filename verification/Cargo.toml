[package]
name = "profiled_store"
version = "0.1.0"
edition = "2021"
publish = false

[dependencies]
arrow = { version = "=58.4.0", default-features = false }
arrow-array = { version = "=58.4.0", default-features = false }
arrow-schema = { version = "=58.4.0", default-features = false }
async-trait = "0.1"
env_logger = { version = "=0.11.11", default-features = false }
futures = "0.3"
lance-arrow = { version = "=13.0.0", default-features = false }
object_store = { version = "=0.14.2", default-features = false }
parking_lot = "=0.12.5"
pprof = { version = "=0.15.0", default-features = false, features = ["protobuf-codec"] }
rand = "0.8"
tokio = { version = "=1.54.1", features = ["rt-multi-thread", "macros"] }
