[package]
name = "video_frames"
version = "0.1.0"
edition = "2021"
publish = false

[dependencies]
anyhow = "1"
clap = { version = "4", features = ["derive"] }
ffmpeg-cli = "*"
tempfile = "3"
tokio = { version = "1", features = ["full"] }
which = "*"
youtube_dl = { version = "*", features = ["tokio", "downloader-rustls-tls"] }
