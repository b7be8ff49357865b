[package]
name = "frame_sampler"
version = "0.1.0"
edition = "2021"
publish = false

[dependencies]
anyhow = "1"
clap = { version = "4", features = ["derive"] }
glob = "0.3"
image = { version = "0.25", default-features = false, features = ["png"] }
log = "0.4"
num-traits = "0.2"
rayon = "1"
tracing-subscriber = "0.3"
video-rs = { version = "*", features = ["ndarray"] }

[dev-dependencies]
tempfile = "3"
