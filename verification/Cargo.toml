[package]
name = "netsentry"
version = "0.4.0"
edition = "2021"
publish = false

[dependencies]
time = "0.3"
pcap = "2"
clap = { version = "4", features = ["derive"] }
ctrlc = "3"
