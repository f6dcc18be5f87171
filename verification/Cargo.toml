[package]
name = "novavm"
version = "0.1.0"
edition = "2021"
publish = false

[dependencies]
bcs = "0.1"
errno = "0.2"
serde = { version = "1", features = ["derive"] }
serde_json = "1"
serde_bytes = "0.11"
anyhow = "1"
thiserror = "1"
hex = "0.4"
log = "0.4"
once_cell = "1"
tempfile = "3"
clap = { version = "3", features = ["derive"] }
smallvec = "1"
num-traits = "0.2"
num-derive = "0.3"
better_any = "0.2"
move-core-types = "*"
