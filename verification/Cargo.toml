[package]
name = "offline_chess_puzzles"
version = "0.1.0"
edition = "2021"
publish = false

[dependencies]
chess = "3.2"
fluent-bundle = "0.15"
unic-langid = "0.9"
rand = "0.8"
serde = { version = "1", features = ["derive"] }
serde_json = "1"
csv = "1"
lopdf = "0.32"
diesel = { version = "2", features = ["sqlite"] }
libsqlite3-sys = { version = "*", features = ["bundled"] }
