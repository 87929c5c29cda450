//! What one run is asked to do.

use vstd::prelude::*;
use crate::download::{video_target, video_target_text};
use crate::extract::{extraction_plan, TranscodeInvocation};
use crate::pipeline::Driver;
use crate::text::{as_text, opt_string_text};

verus! {

/// The settings of one run. They are fixed before the run begins.
#[derive(Clone, Debug, PartialEq, Eq)]
pub struct RunConfig {
    /// The address of the video.
    pub url: String,
    /// The directory that the frames are written into.
    pub out_dir: String,
    /// Frames per second of video.
    pub fps: u32,
    /// The frames' file name, with a place for the frame number.
    pub pattern: String,
    /// `W:H`, where `-1` or `-2` for one of them keeps the aspect ratio.
    pub scale: Option<String>,
    /// Where in the video to begin.
    pub start: Option<String>,
    /// How much of the video to process.
    pub duration: Option<String>,
    /// Whether the downloaded video stays on disk, at [`RunConfig::video_path`].
    pub keep_video: bool,
    /// Where a video that is kept goes.
    pub video_path: String,
    /// Whether a missing download tool may be fetched.
    pub fetch_yt_dlp: bool,
}

impl RunConfig {
    /// The settings for `url` with every option at its default: ten frames
    /// per second into `frames`, named `frame_%06d.png`, nothing rescaled or
    /// cut, the video not kept, no tool fetched.
    pub fn new(url: &str) -> (r: RunConfig)
        ensures
            r.url@ == url@,
            r.out_dir@ == "frames"@,
            r.fps == 10,
            r.pattern@ == "frame_%06d.png"@,
            r.scale is None,
            r.start is None,
            r.duration is None,
            !r.keep_video,
            r.video_path@ == "video.mp4"@,
            !r.fetch_yt_dlp,
    {
        RunConfig {
            url: String::from_str(url),
            out_dir: String::from_str("frames"),
            fps: 10,
            pattern: String::from_str("frame_%06d.png"),
            scale: None,
            start: None,
            duration: None,
            keep_video: false,
            video_path: String::from_str("video.mp4"),
            fetch_yt_dlp: false,
        }
    }

    /// Begins the run that these settings ask for.
    pub fn driver(&self) -> (r: Driver)
        ensures
            r == Driver::initial(self.keep_video, self.fetch_yt_dlp),
            r.wf(),
    {
        Driver::new(self.keep_video, self.fetch_yt_dlp)
    }

    /// Where the downloaded video is to be written, given the temporary
    /// directory of the run (which is not looked at when the video is kept).
    pub fn video_target(&self, scope_dir: &str) -> (r: String)
        ensures
            r@ == video_target_text(self.keep_video, self.video_path@, scope_dir@),
    {
        video_target(self.keep_video, self.video_path.as_str(), scope_dir)
    }

    /// The transcoder invocation that extracts the frames from the video at
    /// `input`.
    pub fn extraction(&self, input: &str) -> (r: TranscodeInvocation)
        ensures
            r@ == extraction_plan(
                input@,
                self.out_dir@,
                self.pattern@,
                self.fps as nat,
                opt_string_text(self.scale),
                opt_string_text(self.start),
                opt_string_text(self.duration),
            ),
    {
        TranscodeInvocation::new(
            input,
            self.out_dir.as_str(),
            self.pattern.as_str(),
            self.fps,
            as_text(&self.scale),
            as_text(&self.start),
            as_text(&self.duration),
        )
    }
}

} // verus!
