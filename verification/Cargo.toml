[package]
name = "projutil"
version = "0.1.0"
edition = "2021"
publish = false

[dependencies]
config = { version = "*", default-features = false, features = ["toml"] }
dirs = "*"
libc = "0.2"
log = "0.4"
num-traits = "0.2"
serde = { version = "1", features = ["derive"] }
toml = "*"

[dev-dependencies]
same-file = "1"
