[package]
name = "scryglass"
version = "0.1.0"
edition = "2021"
publish = false

[dependencies]
arboard = "=3.7.0"
iced = { version = "=0.14.0", default-features = false, features = ["advanced", "tokio", "x11"] }
libm = "0.2"
notify = "=8.2.1"
rfd = { version = "=0.17.2", default-features = false, features = ["xdg-portal"] }
tokio = { version = "1", features = ["rt", "time", "sync"] }
trash = "=5.2.9"

[dev-dependencies]
image = { version = "0.25", default-features = false }
