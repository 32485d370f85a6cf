[package]
name = "logazer"
version = "0.1.0"
edition = "2021"
publish = false

[dependencies]
image = { version = "0.25", default-features = false }
epaint = "0.31"
egui = "0.31"
log = "0.4"
fern = "0.7"
chrono = "0.4"
crossbeam-channel = "0.5"
serde = { version = "1", features = ["derive"] }
windows-capture = "*"
