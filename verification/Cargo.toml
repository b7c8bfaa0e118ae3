[package]
name = "r2ta"
version = "0.1.0"
edition = "2021"
publish = false

[dependencies]
postcard = { version = "1", default-features = false, features = ["alloc"] }
serde = { version = "1", features = ["derive"] }
clap = { version = "4", features = ["derive"] }
clap-verbosity-flag = "*"
color-eyre = "*"
csv = "1"
derive_more = { version = "*", features = ["full"] }
env_logger = "*"
image = { version = "*", default-features = false, features = ["png"] }
itertools = "*"
log = "0.4"
plotters = { version = "*", default-features = false, features = ["svg_backend", "bitmap_backend", "bitmap_encoder", "all_series"] }
plotters-svg = "*"
rusqlite = { version = "*", features = ["bundled"] }
strum = { version = "*", features = ["derive"] }
thiserror = "*"
