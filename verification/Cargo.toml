[package]
name = "opendal"
version = "0.1.0"
edition = "2021"
publish = false

[dependencies]
anyhow = "1"
async-trait = "0.1"
bytes = "1"
futures = "0.3"
hdrs = "0.1"
http = "0.2"
log = "0.4"
quick-xml = { version = "0.26", features = ["serialize"] }
serde = { version = "1", features = ["derive"] }
time = { version = "0.3", features = ["parsing", "formatting", "serde", "std"] }
