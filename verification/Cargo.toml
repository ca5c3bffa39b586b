[package]
name = "advert_pipeline"
version = "0.1.0"
edition = "2021"
publish = false

[dependencies]
image = "0.25"
imageproc = "0.25"
ab_glyph = "0.2"
tokio = { version = "1", features = ["full"] }
warp = "0.3"
serde = { version = "1", features = ["derive"] }
toml = "0.8"
maxminddb = "0.26"
jiff = "0.2"
