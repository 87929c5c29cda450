//! Planning and sequencing for a tool that downloads a video and cuts it into
//! numbered still frames with two external programs.
//!
//! The crate decides and builds; it never touches the disk, the network or a
//! child process. A caller performs each [`pipeline::Action`] that the
//! [`pipeline::Driver`] asks for and reports how it went. The two programs
//! are started through the builders of the `ffmpeg_cli` and `youtube_dl`
//! crates, which [`extract::TranscodeInvocation::builder`] and
//! [`download::downloader`] fill in.

pub mod config;
pub mod download;
pub mod error;
pub mod extract;
pub mod laws;
pub mod pipeline;
pub mod text;
pub mod tools;
pub mod transcoder;
