[package]
name = "powerpack"
version = "0.1.0"
edition = "2021"
publish = false

[dependencies]
anyhow = "1"
atty = "0.2"
cargo_metadata = "0.15"
casual = "*"
chrono = "0.4"
clap = { version = "3", features = ["derive"] }
fmutex = "*"
home = "0.5"
indexmap = "1"
libc = "0.2"
log = "0.4"
once_cell = "1"
peter = "*"
plist = "1"
serde = { version = "1", features = ["derive"] }
serde_json = "1"
thiserror = "1"
toml_edit = "0.14"
uuid = { version = "1", features = ["v4"] }
zip = { version = "0.6", default-features = false, features = ["deflate"] }
