[package]
name = "term_backend"
version = "0.1.0"
edition = "2021"
publish = false

[dependencies]
alacritty_terminal = { version = "=0.24.2", features = ["serde"] }
# Not called from this crate. alacritty_terminal 0.24 reaches rustix 0.38
# through rustix-openpty, which leaves the "std" feature off, and does not
# compile without it; this line switches the feature on.
rustix = { version = "=0.38.44", features = ["std"] }
serde = { version = "=1.0.229", features = ["derive"] }
tokio = { version = "=1.54.1", features = ["rt", "sync", "time"] }
