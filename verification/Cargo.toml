[package]
name = "couchcast"
version = "0.1.0"
edition = "2021"
publish = false

[dependencies]
gtk4 = "*"
libadwaita = "*"
gstreamer = "*"
gstreamer-video = "*"
v4l = "*"
gilrs = "*"
tokio = { version = "1", features = ["rt", "process", "io-util", "sync"] }
async-trait = "*"
serde = { version = "1", features = ["derive"] }
toml = "*"
thiserror = "*"
directories = "*"
tracing = "*"
tracing-subscriber = { version = "*", features = ["env-filter", "fmt"] }
