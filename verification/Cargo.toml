[package]
name = "newdaq"
version = "0.1.0"
edition = "2021"
publish = false

[dependencies]
packed_struct = "0.10"
serde = { version = "1", features = ["derive"] }
serde_json = "1"
serde_yaml = "0.9"
clap = { version = "3.2", features = ["derive"] }
chrono = "0.4"
crossbeam = "0.8"
ctrlc = "3"
pcap = "0.10"
sysinfo = "0.29"
lockfile = "0.4"
named-lock = "0.3"
num-complex = "0.4"
plotters = "0.3"
csv = "1"
