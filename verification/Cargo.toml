[package]
name = "raftstore_v2"
version = "0.1.0"
edition = "2021"
publish = false

[dependencies]
crossbeam = "=0.8.5"
raft = "=0.7.0"
slog = "=2.8.2"
