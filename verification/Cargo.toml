[package]
name = "session_view"
version = "0.1.0"
edition = "2021"
publish = false

[dependencies]
ruma = { version = "=0.17.2", features = ["events", "unstable-msc3381"] }
pulldown-cmark = { version = "=0.13.6", default-features = false }
secular = { version = "=1.0.1", features = ["normalization"] }
geo-uri = "=0.2.5"
