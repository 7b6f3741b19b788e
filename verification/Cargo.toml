[package]
name = "farmer_config"
version = "0.1.0"
edition = "2021"
publish = false

[dependencies]
blst = "*"
clap = { version = "*", features = ["derive"] }
dg_xch_cli = "*"
dg_xch_clients = "*"
dg_xch_core = "*"
dg_xch_keys = "*"
dg_xch_puzzles = "*"
dialoguer = "*"
home = "*"
log = "*"
serde = { version = "*", features = ["derive"] }
serde_yaml = "*"
simple_logger = "*"
tokio = { version = "*", features = ["macros", "rt-multi-thread", "fs"] }
