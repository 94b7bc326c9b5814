[package]
name = "rdr-compose"
version = "0.1.0"
edition = "2021"
publish = false

[dependencies]
serde = { version = "=1.0.229", features = ["derive"] }
toml = "=0.5.11"
clap = { version = "=3.2.25", features = ["derive"] }
tokio = { version = "=1.54.1", features = ["process", "rt", "macros"] }
new_string_template = "=1.5.3"
serde_json = "=1.0.154"
zeromq = "=0.4.1"
protobuf = { version = "=3.7.2", features = ["with-bytes"] }
bytes = "=1.12.1"
async-trait = "=0.1.92"
eframe = "0.18"
egui = "0.18"
egui_extras = "0.18"
egui_nodes = "0.1"
